//! The typed values of a record's fields, and the decoder of each kind of
//! field.
//!
//! A decoder takes a key and the fields of a block and gives the typed value
//! or the reason why there is none. What it gives is stated by a function
//! whose name ends in `_field`, over the view of the fields.

use vstd::prelude::*;
use vstd::std_specs::convert::FromSpecImpl;
use crate::nagios::fields::KeyValues;
use crate::number::{float_literal, is_float_literal, parse_i64, parse_u32, read_i64, read_u32};
use crate::text::same_text;

pub use crate::nagios::host::Host;
pub use crate::nagios::service::Service;

verus! {

/// How a check was run.
#[derive(Debug, Clone, Copy, PartialEq, Eq, Structural)]
pub enum CheckType {
    Active,
    Passive,
    Parent,
    File,
    Other,
}

/// The state of a host.
#[derive(Debug, Clone, Copy, PartialEq, Eq, Structural)]
pub enum HostState {
    Up,
    Down,
    Unreachable,
}

/// The state of a service.
#[derive(Debug, Clone, Copy, PartialEq, Eq, Structural)]
pub enum ServiceState {
    Okay,
    Warning,
    Critical,
    Unknown,
}

/// How a problem was acknowledged.
#[derive(Debug, Clone, Copy, PartialEq, Eq, Structural)]
pub enum AcknowledgementType {
    Unacknowledged,
    Normal,
    Sticky,
}

/// Whether a state is settled.
#[derive(Debug, Clone, Copy, PartialEq, Eq, Structural)]
pub enum StateType {
    Soft,
    Hard,
}

/// The attributes that were changed at run time, as a set of bits.
#[derive(Debug, Clone, Copy, PartialEq, Eq, Structural)]
pub struct ModifiedAttributes(pub u32);

impl From<u32> for ModifiedAttributes {
    fn from(u: u32) -> (r: Self) {
        ModifiedAttributes(u)
    }
}

impl FromSpecImpl<u32> for ModifiedAttributes {
    open spec fn obeys_from_spec() -> bool {
        true
    }

    open spec fn from_spec(u: u32) -> Self {
        ModifiedAttributes(u)
    }
}

/// The options of the next check, as a set of bits.
#[derive(Debug, Clone, Copy, PartialEq, Eq, Structural)]
pub struct CheckOptions(pub u32);

impl From<u32> for CheckOptions {
    fn from(u: u32) -> (r: Self) {
        CheckOptions(u)
    }
}

impl FromSpecImpl<u32> for CheckOptions {
    open spec fn obeys_from_spec() -> bool {
        true
    }

    open spec fn from_spec(u: u32) -> Self {
        CheckOptions(u)
    }
}

/// A floating-point number, kept as the literal that writes it. Every value
/// of this type holds a literal that the standard library parses as a
/// double-precision float.
#[derive(Debug, PartialEq)]
pub struct Float {
    text: String,
}

impl View for Float {
    type V = Seq<char>;

    closed spec fn view(&self) -> Seq<char> {
        self.text@
    }
}

impl Float {
    #[verifier::type_invariant]
    spec fn holds_literal(self) -> bool {
        is_float_literal(self.text@)
    }

    /// The number that `text` writes, where it is a floating-point literal.
    pub fn parse(text: &str) -> (r: Option<Float>)
        ensures
            match r {
                Some(number) => is_float_literal(text@) && number@ == text@,
                None => !is_float_literal(text@),
            },
    {
        if float_literal(text) {
            Some(Float { text: text.to_string() })
        } else {
            None
        }
    }

    /// The literal.
    pub fn as_str(&self) -> (r: &str)
        ensures
            r@ == self@,
            is_float_literal(r@),
    {
        proof {
            use_type_invariant(self);
        }
        self.text.as_str()
    }
}

impl Clone for Float {
    fn clone(&self) -> (r: Self)
        ensures
            r@ == self@,
    {
        proof {
            use_type_invariant(self);
        }
        Float { text: self.text.clone() }
    }
}

/// Why the fields of a block are not a record.
#[derive(Debug, PartialEq)]
pub enum ConvertError {
    /// The key is missing.
    KeyDoesNotExists(String),
    /// The value does not write a number of the type named second.
    FailedToParse(String, String),
    /// The value is neither `0` nor `1`.
    InvalidBooleanValue(String),
    /// The value is no state of a host.
    InvalidHostStateValue(String),
    /// The value is no state of a service.
    InvalidServiceStateValue(String),
    /// The value is no kind of check.
    InvalidCheckTypeValue(String),
    /// The value is no kind of acknowledgement.
    InvalidAcknowledgementTypeValue(String),
    /// The value is no kind of state.
    InvalidStateTypeValue(String),
}

/// A `ConvertError` with each text as its characters.
pub enum ConvertErrorView {
    KeyDoesNotExists(Seq<char>),
    FailedToParse(Seq<char>, Seq<char>),
    InvalidBooleanValue(Seq<char>),
    InvalidHostStateValue(Seq<char>),
    InvalidServiceStateValue(Seq<char>),
    InvalidCheckTypeValue(Seq<char>),
    InvalidAcknowledgementTypeValue(Seq<char>),
    InvalidStateTypeValue(Seq<char>),
}

impl View for ConvertError {
    type V = ConvertErrorView;

    open spec fn view(&self) -> ConvertErrorView {
        match self {
            ConvertError::KeyDoesNotExists(key) => ConvertErrorView::KeyDoesNotExists(key@),
            ConvertError::FailedToParse(value, target) => ConvertErrorView::FailedToParse(
                value@,
                target@,
            ),
            ConvertError::InvalidBooleanValue(value) => ConvertErrorView::InvalidBooleanValue(
                value@,
            ),
            ConvertError::InvalidHostStateValue(value) => ConvertErrorView::InvalidHostStateValue(
                value@,
            ),
            ConvertError::InvalidServiceStateValue(value) => {
                ConvertErrorView::InvalidServiceStateValue(value@)
            },
            ConvertError::InvalidCheckTypeValue(value) => ConvertErrorView::InvalidCheckTypeValue(
                value@,
            ),
            ConvertError::InvalidAcknowledgementTypeValue(value) => {
                ConvertErrorView::InvalidAcknowledgementTypeValue(value@)
            },
            ConvertError::InvalidStateTypeValue(value) => ConvertErrorView::InvalidStateTypeValue(
                value@,
            ),
        }
    }
}

/// The fields of a block, as a map from the characters of each key to the
/// characters of its value.
pub type Fields = Map<Seq<char>, Seq<char>>;

/// What a decoder gives: `got` is the value that `want` asks for, or the
/// error that it asks for.
pub open spec fn decoded<T>(
    got: Result<T, ConvertError>,
    want: Result<T, ConvertErrorView>,
) -> bool {
    match got {
        Ok(value) => want == Ok::<T, ConvertErrorView>(value),
        Err(error) => want == Err::<T, ConvertErrorView>(error@),
    }
}

/// The value of `key`; a missing key is an error that names it.
pub open spec fn raw_field(fields: Fields, key: Seq<char>) -> Result<Seq<char>, ConvertErrorView> {
    if fields.contains_key(key) {
        Ok(fields[key])
    } else {
        Err(ConvertErrorView::KeyDoesNotExists(key))
    }
}

/// The value of `key` as text: any value is text.
pub open spec fn string_field(fields: Fields, key: Seq<char>) -> Result<
    Seq<char>,
    ConvertErrorView,
> {
    raw_field(fields, key)
}

/// The value of `key` as a truth value: `0` is false, `1` is true, and no
/// other value is accepted.
pub open spec fn bool_field(fields: Fields, key: Seq<char>) -> Result<bool, ConvertErrorView> {
    match raw_field(fields, key) {
        Err(error) => Err(error),
        Ok(value) => if value == "0"@ {
            Ok(false)
        } else if value == "1"@ {
            Ok(true)
        } else {
            Err(ConvertErrorView::InvalidBooleanValue(value))
        },
    }
}

/// The value of `key` as an unsigned number.
pub open spec fn u32_field(fields: Fields, key: Seq<char>) -> Result<u32, ConvertErrorView> {
    match raw_field(fields, key) {
        Err(error) => Err(error),
        Ok(value) => match parse_u32(value) {
            Some(number) => Ok(number),
            None => Err(ConvertErrorView::FailedToParse(value, "u32"@)),
        },
    }
}

/// The value of `key` as a floating-point literal.
pub open spec fn float_field(fields: Fields, key: Seq<char>) -> Result<
    Seq<char>,
    ConvertErrorView,
> {
    match raw_field(fields, key) {
        Err(error) => Err(error),
        Ok(value) => if is_float_literal(value) {
            Ok(value)
        } else {
            Err(ConvertErrorView::FailedToParse(value, "f64"@))
        },
    }
}

/// The value of `key` as a time in seconds since 1970-01-01 00:00:00 UTC,
/// where `0` stands for no time at all.
pub open spec fn datetime_field(fields: Fields, key: Seq<char>) -> Result<
    Option<i64>,
    ConvertErrorView,
> {
    match raw_field(fields, key) {
        Err(error) => Err(error),
        Ok(value) => if value == "0"@ {
            Ok(None)
        } else {
            match parse_i64(value) {
                Some(seconds) => Ok(Some(seconds)),
                None => Err(ConvertErrorView::FailedToParse(value, "DateTime<Utc>"@)),
            }
        },
    }
}

/// The value of `key` as a kind of check: `0` to `4`.
pub open spec fn check_type_field(fields: Fields, key: Seq<char>) -> Result<
    CheckType,
    ConvertErrorView,
> {
    match raw_field(fields, key) {
        Err(error) => Err(error),
        Ok(value) => if value == "0"@ {
            Ok(CheckType::Active)
        } else if value == "1"@ {
            Ok(CheckType::Passive)
        } else if value == "2"@ {
            Ok(CheckType::Parent)
        } else if value == "3"@ {
            Ok(CheckType::File)
        } else if value == "4"@ {
            Ok(CheckType::Other)
        } else {
            Err(ConvertErrorView::InvalidCheckTypeValue(value))
        },
    }
}

/// The value of `key` as the state of a host: `0` to `2`.
pub open spec fn host_state_field(fields: Fields, key: Seq<char>) -> Result<
    HostState,
    ConvertErrorView,
> {
    match raw_field(fields, key) {
        Err(error) => Err(error),
        Ok(value) => if value == "0"@ {
            Ok(HostState::Up)
        } else if value == "1"@ {
            Ok(HostState::Down)
        } else if value == "2"@ {
            Ok(HostState::Unreachable)
        } else {
            Err(ConvertErrorView::InvalidHostStateValue(value))
        },
    }
}

/// The value of `key` as the state of a service: `0` to `3`.
pub open spec fn service_state_field(fields: Fields, key: Seq<char>) -> Result<
    ServiceState,
    ConvertErrorView,
> {
    match raw_field(fields, key) {
        Err(error) => Err(error),
        Ok(value) => if value == "0"@ {
            Ok(ServiceState::Okay)
        } else if value == "1"@ {
            Ok(ServiceState::Warning)
        } else if value == "2"@ {
            Ok(ServiceState::Critical)
        } else if value == "3"@ {
            Ok(ServiceState::Unknown)
        } else {
            Err(ConvertErrorView::InvalidServiceStateValue(value))
        },
    }
}

/// The value of `key` as a kind of acknowledgement: `0` to `2`.
pub open spec fn acknowledgement_type_field(fields: Fields, key: Seq<char>) -> Result<
    AcknowledgementType,
    ConvertErrorView,
> {
    match raw_field(fields, key) {
        Err(error) => Err(error),
        Ok(value) => if value == "0"@ {
            Ok(AcknowledgementType::Unacknowledged)
        } else if value == "1"@ {
            Ok(AcknowledgementType::Normal)
        } else if value == "2"@ {
            Ok(AcknowledgementType::Sticky)
        } else {
            Err(ConvertErrorView::InvalidAcknowledgementTypeValue(value))
        },
    }
}

/// The value of `key` as a kind of state: `0` or `1`.
pub open spec fn state_type_field(fields: Fields, key: Seq<char>) -> Result<
    StateType,
    ConvertErrorView,
> {
    match raw_field(fields, key) {
        Err(error) => Err(error),
        Ok(value) => if value == "0"@ {
            Ok(StateType::Soft)
        } else if value == "1"@ {
            Ok(StateType::Hard)
        } else {
            Err(ConvertErrorView::InvalidStateTypeValue(value))
        },
    }
}

/// Only `0` and `1` are truth values: a field with any other value is
/// refused with an error that holds the value.
pub proof fn lemma_only_zero_and_one_are_truth_values(fields: Fields, key: Seq<char>)
    requires
        fields.contains_key(key),
    ensures
        bool_field(fields, key) is Ok <==> fields[key] == "0"@ || fields[key] == "1"@,
        bool_field(fields, key) is Err ==> bool_field(fields, key) == Err::<
            bool,
            ConvertErrorView,
        >(ConvertErrorView::InvalidBooleanValue(fields[key])),
{
}

/// The time `0` is no time at all, every other number is a time, and a value
/// that writes no number is refused with an error that holds it.
pub proof fn lemma_zero_is_no_time(fields: Fields, key: Seq<char>)
    requires
        fields.contains_key(key),
    ensures
        fields[key] == "0"@ ==> datetime_field(fields, key) == Ok::<
            Option<i64>,
            ConvertErrorView,
        >(None),
        fields[key] != "0"@ && parse_i64(fields[key]) is Some ==> datetime_field(fields, key)
            == Ok::<Option<i64>, ConvertErrorView>(Some(parse_i64(fields[key])->Some_0)),
        fields[key] != "0"@ && parse_i64(fields[key]) is None ==> datetime_field(fields, key)
            == Err::<Option<i64>, ConvertErrorView>(
            ConvertErrorView::FailedToParse(fields[key], "DateTime<Utc>"@),
        ),
{
}

/// The value of `key`.
pub fn get_raw<'a>(key: &str, key_values: &'a KeyValues) -> (r: Result<&'a String, ConvertError>)
    ensures
        match r {
            Ok(value) => raw_field(key_values@, key@) == Ok::<Seq<char>, ConvertErrorView>(value@),
            Err(error) => raw_field(key_values@, key@) == Err::<Seq<char>, ConvertErrorView>(
                error@,
            ),
        },
{
    match key_values.get(key) {
        Some(value) => Ok(value),
        None => Err(ConvertError::KeyDoesNotExists(key.to_string())),
    }
}

/// The value of `key` as a truth value.
pub fn get_bool(key: &str, key_values: &KeyValues) -> (r: Result<bool, ConvertError>)
    ensures
        decoded(r, bool_field(key_values@, key@)),
{
    let value = get_raw(key, key_values)?;
    if same_text(value.as_str(), "0") {
        Ok(false)
    } else if same_text(value.as_str(), "1") {
        Ok(true)
    } else {
        Err(ConvertError::InvalidBooleanValue(value.clone()))
    }
}

/// The value of `key` as text.
pub fn get_string(key: &str, key_values: &KeyValues) -> (r: Result<String, ConvertError>)
    ensures
        match r {
            Ok(value) => string_field(key_values@, key@) == Ok::<Seq<char>, ConvertErrorView>(
                value@,
            ),
            Err(error) => string_field(key_values@, key@) == Err::<Seq<char>, ConvertErrorView>(
                error@,
            ),
        },
{
    let value = get_raw(key, key_values)?;
    Ok(value.clone())
}

/// The value of `key` as an unsigned number.
pub fn get_u32(key: &str, key_values: &KeyValues) -> (r: Result<u32, ConvertError>)
    ensures
        decoded(r, u32_field(key_values@, key@)),
{
    let value = get_raw(key, key_values)?;
    match read_u32(value.as_str()) {
        Some(number) => Ok(number),
        None => Err(ConvertError::FailedToParse(value.clone(), "u32".to_string())),
    }
}

/// The value of `key` as a floating-point number.
pub fn get_f64(key: &str, key_values: &KeyValues) -> (r: Result<Float, ConvertError>)
    ensures
        match r {
            Ok(number) => float_field(key_values@, key@) == Ok::<Seq<char>, ConvertErrorView>(
                number@,
            ),
            Err(error) => float_field(key_values@, key@) == Err::<Seq<char>, ConvertErrorView>(
                error@,
            ),
        },
{
    let value = get_raw(key, key_values)?;
    match Float::parse(value.as_str()) {
        Some(number) => Ok(number),
        None => Err(ConvertError::FailedToParse(value.clone(), "f64".to_string())),
    }
}

/// The value of `key` as a time: `None` for `0`, else the seconds since
/// 1970-01-01 00:00:00 UTC.
pub fn get_datetime(key: &str, key_values: &KeyValues) -> (r: Result<Option<i64>, ConvertError>)
    ensures
        decoded(r, datetime_field(key_values@, key@)),
{
    let value = get_raw(key, key_values)?;
    if same_text(value.as_str(), "0") {
        return Ok(None);
    }
    match read_i64(value.as_str()) {
        Some(seconds) => Ok(Some(seconds)),
        None => Err(ConvertError::FailedToParse(value.clone(), "DateTime<Utc>".to_string())),
    }
}

/// The value of `key` as a kind of check.
pub fn get_check_type(key: &str, key_values: &KeyValues) -> (r: Result<CheckType, ConvertError>)
    ensures
        decoded(r, check_type_field(key_values@, key@)),
{
    let value = get_raw(key, key_values)?;
    if same_text(value.as_str(), "0") {
        Ok(CheckType::Active)
    } else if same_text(value.as_str(), "1") {
        Ok(CheckType::Passive)
    } else if same_text(value.as_str(), "2") {
        Ok(CheckType::Parent)
    } else if same_text(value.as_str(), "3") {
        Ok(CheckType::File)
    } else if same_text(value.as_str(), "4") {
        Ok(CheckType::Other)
    } else {
        Err(ConvertError::InvalidCheckTypeValue(value.clone()))
    }
}

/// The value of `key` as the state of a host.
pub fn get_host_state(key: &str, key_values: &KeyValues) -> (r: Result<HostState, ConvertError>)
    ensures
        decoded(r, host_state_field(key_values@, key@)),
{
    let value = get_raw(key, key_values)?;
    if same_text(value.as_str(), "0") {
        Ok(HostState::Up)
    } else if same_text(value.as_str(), "1") {
        Ok(HostState::Down)
    } else if same_text(value.as_str(), "2") {
        Ok(HostState::Unreachable)
    } else {
        Err(ConvertError::InvalidHostStateValue(value.clone()))
    }
}

/// The value of `key` as the state of a service.
pub fn get_service_state(key: &str, key_values: &KeyValues) -> (r: Result<
    ServiceState,
    ConvertError,
>)
    ensures
        decoded(r, service_state_field(key_values@, key@)),
{
    let value = get_raw(key, key_values)?;
    if same_text(value.as_str(), "0") {
        Ok(ServiceState::Okay)
    } else if same_text(value.as_str(), "1") {
        Ok(ServiceState::Warning)
    } else if same_text(value.as_str(), "2") {
        Ok(ServiceState::Critical)
    } else if same_text(value.as_str(), "3") {
        Ok(ServiceState::Unknown)
    } else {
        Err(ConvertError::InvalidServiceStateValue(value.clone()))
    }
}

/// The value of `key` as a kind of acknowledgement.
pub fn get_acknowledgement_type(key: &str, key_values: &KeyValues) -> (r: Result<
    AcknowledgementType,
    ConvertError,
>)
    ensures
        decoded(r, acknowledgement_type_field(key_values@, key@)),
{
    let value = get_raw(key, key_values)?;
    if same_text(value.as_str(), "0") {
        Ok(AcknowledgementType::Unacknowledged)
    } else if same_text(value.as_str(), "1") {
        Ok(AcknowledgementType::Normal)
    } else if same_text(value.as_str(), "2") {
        Ok(AcknowledgementType::Sticky)
    } else {
        Err(ConvertError::InvalidAcknowledgementTypeValue(value.clone()))
    }
}

/// The value of `key` as a kind of state.
pub fn get_state_type(key: &str, key_values: &KeyValues) -> (r: Result<StateType, ConvertError>)
    ensures
        decoded(r, state_type_field(key_values@, key@)),
{
    let value = get_raw(key, key_values)?;
    if same_text(value.as_str(), "0") {
        Ok(StateType::Soft)
    } else if same_text(value.as_str(), "1") {
        Ok(StateType::Hard)
    } else {
        Err(ConvertError::InvalidStateTypeValue(value.clone()))
    }
}

} // verus!
