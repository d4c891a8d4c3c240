//! The status of a host, as a `hoststatus` block gives it.

use vstd::prelude::*;
use vstd::std_specs::convert::TryFromSpecImpl;
use crate::nagios::fields::KeyValues;
use crate::nagios::object::{
    acknowledgement_type_field, bool_field, check_type_field, datetime_field, float_field,
    host_state_field, state_type_field, string_field, u32_field, AcknowledgementType, CheckOptions,
    CheckType, ConvertError, ConvertErrorView, Fields, Float, HostState, ModifiedAttributes,
    StateType,
};
use crate::nagios::record::{
    acknowledgement_type_at, bool_at, check_type_at, datetime_at, first_fault, float_at,
    host_state_at, lemma_missing_key_is_named, lemma_missing_key_is_refused, lemma_no_fault,
    sound_before, state_type_at, string_at, u32_at, FieldKind, Layout,
};

verus! {

/// The status of one host. A time is in seconds since 1970-01-01 00:00:00 UTC,
/// and `None` where the daemon wrote `0` for a time that never was.
#[derive(Debug, PartialEq)]
pub struct Host {
    pub host_name: String,
    pub modified_attributes: ModifiedAttributes,
    pub check_command: String,
    pub check_period: String,
    pub notification_period: String,
    pub importance: u32,
    pub check_interval: Float,
    pub retry_interval: Float,
    pub event_handler: String,
    pub has_been_checked: bool,
    pub should_be_scheduled: bool,
    pub check_execution_time: Float,
    pub check_latency: Float,
    pub check_type: CheckType,
    pub current_state: HostState,
    pub last_hard_state: HostState,
    pub plugin_output: String,
    pub long_plugin_output: String,
    pub performance_data: String,
    pub last_check: Option<i64>,
    pub next_check: Option<i64>,
    pub check_options: CheckOptions,
    pub current_attempt: u32,
    pub max_attempts: u32,
    pub state_type: StateType,
    pub last_state_change: Option<i64>,
    pub last_hard_state_change: Option<i64>,
    pub last_time_up: Option<i64>,
    pub last_time_down: Option<i64>,
    pub last_time_unreachable: Option<i64>,
    pub last_notification: Option<i64>,
    pub next_notification: Option<i64>,
    pub no_more_notifications: bool,
    pub current_notification_number: u32,
    pub notifications_enabled: bool,
    pub problem_has_been_acknowledged: bool,
    pub acknowledgement_type: AcknowledgementType,
    pub active_checks_enabled: bool,
    pub passive_checks_enabled: bool,
    pub event_handler_enabled: bool,
    pub flap_detection_enabled: bool,
    pub process_performance_data: bool,
    pub obsess: bool,
    pub last_update: Option<i64>,
    pub is_flapping: bool,
    pub percent_state_change: Float,
    pub scheduled_downtime_depth: u32,
}

/// A `Host` with each text as its characters.
pub struct HostView {
    pub host_name: Seq<char>,
    pub modified_attributes: ModifiedAttributes,
    pub check_command: Seq<char>,
    pub check_period: Seq<char>,
    pub notification_period: Seq<char>,
    pub importance: u32,
    pub check_interval: Seq<char>,
    pub retry_interval: Seq<char>,
    pub event_handler: Seq<char>,
    pub has_been_checked: bool,
    pub should_be_scheduled: bool,
    pub check_execution_time: Seq<char>,
    pub check_latency: Seq<char>,
    pub check_type: CheckType,
    pub current_state: HostState,
    pub last_hard_state: HostState,
    pub plugin_output: Seq<char>,
    pub long_plugin_output: Seq<char>,
    pub performance_data: Seq<char>,
    pub last_check: Option<i64>,
    pub next_check: Option<i64>,
    pub check_options: CheckOptions,
    pub current_attempt: u32,
    pub max_attempts: u32,
    pub state_type: StateType,
    pub last_state_change: Option<i64>,
    pub last_hard_state_change: Option<i64>,
    pub last_time_up: Option<i64>,
    pub last_time_down: Option<i64>,
    pub last_time_unreachable: Option<i64>,
    pub last_notification: Option<i64>,
    pub next_notification: Option<i64>,
    pub no_more_notifications: bool,
    pub current_notification_number: u32,
    pub notifications_enabled: bool,
    pub problem_has_been_acknowledged: bool,
    pub acknowledgement_type: AcknowledgementType,
    pub active_checks_enabled: bool,
    pub passive_checks_enabled: bool,
    pub event_handler_enabled: bool,
    pub flap_detection_enabled: bool,
    pub process_performance_data: bool,
    pub obsess: bool,
    pub last_update: Option<i64>,
    pub is_flapping: bool,
    pub percent_state_change: Seq<char>,
    pub scheduled_downtime_depth: u32,
}

impl View for Host {
    type V = HostView;

    open spec fn view(&self) -> HostView {
        HostView {
            host_name: self.host_name@,
            modified_attributes: self.modified_attributes,
            check_command: self.check_command@,
            check_period: self.check_period@,
            notification_period: self.notification_period@,
            importance: self.importance,
            check_interval: self.check_interval@,
            retry_interval: self.retry_interval@,
            event_handler: self.event_handler@,
            has_been_checked: self.has_been_checked,
            should_be_scheduled: self.should_be_scheduled,
            check_execution_time: self.check_execution_time@,
            check_latency: self.check_latency@,
            check_type: self.check_type,
            current_state: self.current_state,
            last_hard_state: self.last_hard_state,
            plugin_output: self.plugin_output@,
            long_plugin_output: self.long_plugin_output@,
            performance_data: self.performance_data@,
            last_check: self.last_check,
            next_check: self.next_check,
            check_options: self.check_options,
            current_attempt: self.current_attempt,
            max_attempts: self.max_attempts,
            state_type: self.state_type,
            last_state_change: self.last_state_change,
            last_hard_state_change: self.last_hard_state_change,
            last_time_up: self.last_time_up,
            last_time_down: self.last_time_down,
            last_time_unreachable: self.last_time_unreachable,
            last_notification: self.last_notification,
            next_notification: self.next_notification,
            no_more_notifications: self.no_more_notifications,
            current_notification_number: self.current_notification_number,
            notifications_enabled: self.notifications_enabled,
            problem_has_been_acknowledged: self.problem_has_been_acknowledged,
            acknowledgement_type: self.acknowledgement_type,
            active_checks_enabled: self.active_checks_enabled,
            passive_checks_enabled: self.passive_checks_enabled,
            event_handler_enabled: self.event_handler_enabled,
            flap_detection_enabled: self.flap_detection_enabled,
            process_performance_data: self.process_performance_data,
            obsess: self.obsess,
            last_update: self.last_update,
            is_flapping: self.is_flapping,
            percent_state_change: self.percent_state_change@,
            scheduled_downtime_depth: self.scheduled_downtime_depth,
        }
    }
}

/// The field that is decoded at place `i`: its key and the kind of its value.
pub open spec fn host_field(i: int) -> (Seq<char>, FieldKind) {
    if i == 0 {
        ("host_name"@, FieldKind::Text)
    } else if i == 1 {
        ("modified_attributes"@, FieldKind::Count)
    } else if i == 2 {
        ("check_command"@, FieldKind::Text)
    } else if i == 3 {
        ("check_period"@, FieldKind::Text)
    } else if i == 4 {
        ("notification_period"@, FieldKind::Text)
    } else if i == 5 {
        ("importance"@, FieldKind::Count)
    } else if i == 6 {
        ("check_interval"@, FieldKind::Float)
    } else if i == 7 {
        ("retry_interval"@, FieldKind::Float)
    } else if i == 8 {
        ("event_handler"@, FieldKind::Text)
    } else if i == 9 {
        ("has_been_checked"@, FieldKind::Flag)
    } else if i == 10 {
        ("should_be_scheduled"@, FieldKind::Flag)
    } else if i == 11 {
        ("check_execution_time"@, FieldKind::Float)
    } else if i == 12 {
        ("check_latency"@, FieldKind::Float)
    } else if i == 13 {
        ("check_type"@, FieldKind::CheckType)
    } else if i == 14 {
        ("current_state"@, FieldKind::HostState)
    } else if i == 15 {
        ("last_hard_state"@, FieldKind::HostState)
    } else if i == 16 {
        ("plugin_output"@, FieldKind::Text)
    } else if i == 17 {
        ("long_plugin_output"@, FieldKind::Text)
    } else if i == 18 {
        ("performance_data"@, FieldKind::Text)
    } else if i == 19 {
        ("last_check"@, FieldKind::DateTime)
    } else if i == 20 {
        ("next_check"@, FieldKind::DateTime)
    } else if i == 21 {
        ("check_options"@, FieldKind::Count)
    } else if i == 22 {
        ("current_attempt"@, FieldKind::Count)
    } else if i == 23 {
        ("max_attempts"@, FieldKind::Count)
    } else if i == 24 {
        ("state_type"@, FieldKind::StateType)
    } else if i == 25 {
        ("last_state_change"@, FieldKind::DateTime)
    } else if i == 26 {
        ("last_hard_state_change"@, FieldKind::DateTime)
    } else if i == 27 {
        ("last_time_up"@, FieldKind::DateTime)
    } else if i == 28 {
        ("last_time_down"@, FieldKind::DateTime)
    } else if i == 29 {
        ("last_time_unreachable"@, FieldKind::DateTime)
    } else if i == 30 {
        ("last_notification"@, FieldKind::DateTime)
    } else if i == 31 {
        ("next_notification"@, FieldKind::DateTime)
    } else if i == 32 {
        ("no_more_notifications"@, FieldKind::Flag)
    } else if i == 33 {
        ("current_notification_number"@, FieldKind::Count)
    } else if i == 34 {
        ("notifications_enabled"@, FieldKind::Flag)
    } else if i == 35 {
        ("problem_has_been_acknowledged"@, FieldKind::Flag)
    } else if i == 36 {
        ("acknowledgement_type"@, FieldKind::AcknowledgementType)
    } else if i == 37 {
        ("active_checks_enabled"@, FieldKind::Flag)
    } else if i == 38 {
        ("passive_checks_enabled"@, FieldKind::Flag)
    } else if i == 39 {
        ("event_handler_enabled"@, FieldKind::Flag)
    } else if i == 40 {
        ("flap_detection_enabled"@, FieldKind::Flag)
    } else if i == 41 {
        ("process_performance_data"@, FieldKind::Flag)
    } else if i == 42 {
        ("obsess"@, FieldKind::Flag)
    } else if i == 43 {
        ("last_update"@, FieldKind::DateTime)
    } else if i == 44 {
        ("is_flapping"@, FieldKind::Flag)
    } else if i == 45 {
        ("percent_state_change"@, FieldKind::Float)
    } else {
        ("scheduled_downtime_depth"@, FieldKind::Count)
    }
}

/// The fields of a host, in the order in which they are decoded.
pub open spec fn host_layout() -> Layout {
    Seq::new(47, |i: int| host_field(i))
}

/// The host that sound `fields` hold.
pub open spec fn host_of(fields: Fields) -> HostView {
    HostView {
        host_name: string_field(fields, "host_name"@)->Ok_0,
        modified_attributes: ModifiedAttributes(u32_field(fields, "modified_attributes"@)->Ok_0),
        check_command: string_field(fields, "check_command"@)->Ok_0,
        check_period: string_field(fields, "check_period"@)->Ok_0,
        notification_period: string_field(fields, "notification_period"@)->Ok_0,
        importance: u32_field(fields, "importance"@)->Ok_0,
        check_interval: float_field(fields, "check_interval"@)->Ok_0,
        retry_interval: float_field(fields, "retry_interval"@)->Ok_0,
        event_handler: string_field(fields, "event_handler"@)->Ok_0,
        has_been_checked: bool_field(fields, "has_been_checked"@)->Ok_0,
        should_be_scheduled: bool_field(fields, "should_be_scheduled"@)->Ok_0,
        check_execution_time: float_field(fields, "check_execution_time"@)->Ok_0,
        check_latency: float_field(fields, "check_latency"@)->Ok_0,
        check_type: check_type_field(fields, "check_type"@)->Ok_0,
        current_state: host_state_field(fields, "current_state"@)->Ok_0,
        last_hard_state: host_state_field(fields, "last_hard_state"@)->Ok_0,
        plugin_output: string_field(fields, "plugin_output"@)->Ok_0,
        long_plugin_output: string_field(fields, "long_plugin_output"@)->Ok_0,
        performance_data: string_field(fields, "performance_data"@)->Ok_0,
        last_check: datetime_field(fields, "last_check"@)->Ok_0,
        next_check: datetime_field(fields, "next_check"@)->Ok_0,
        check_options: CheckOptions(u32_field(fields, "check_options"@)->Ok_0),
        current_attempt: u32_field(fields, "current_attempt"@)->Ok_0,
        max_attempts: u32_field(fields, "max_attempts"@)->Ok_0,
        state_type: state_type_field(fields, "state_type"@)->Ok_0,
        last_state_change: datetime_field(fields, "last_state_change"@)->Ok_0,
        last_hard_state_change: datetime_field(fields, "last_hard_state_change"@)->Ok_0,
        last_time_up: datetime_field(fields, "last_time_up"@)->Ok_0,
        last_time_down: datetime_field(fields, "last_time_down"@)->Ok_0,
        last_time_unreachable: datetime_field(fields, "last_time_unreachable"@)->Ok_0,
        last_notification: datetime_field(fields, "last_notification"@)->Ok_0,
        next_notification: datetime_field(fields, "next_notification"@)->Ok_0,
        no_more_notifications: bool_field(fields, "no_more_notifications"@)->Ok_0,
        current_notification_number: u32_field(fields, "current_notification_number"@)->Ok_0,
        notifications_enabled: bool_field(fields, "notifications_enabled"@)->Ok_0,
        problem_has_been_acknowledged: bool_field(fields, "problem_has_been_acknowledged"@)->Ok_0,
        acknowledgement_type: acknowledgement_type_field(fields, "acknowledgement_type"@)->Ok_0,
        active_checks_enabled: bool_field(fields, "active_checks_enabled"@)->Ok_0,
        passive_checks_enabled: bool_field(fields, "passive_checks_enabled"@)->Ok_0,
        event_handler_enabled: bool_field(fields, "event_handler_enabled"@)->Ok_0,
        flap_detection_enabled: bool_field(fields, "flap_detection_enabled"@)->Ok_0,
        process_performance_data: bool_field(fields, "process_performance_data"@)->Ok_0,
        obsess: bool_field(fields, "obsess"@)->Ok_0,
        last_update: datetime_field(fields, "last_update"@)->Ok_0,
        is_flapping: bool_field(fields, "is_flapping"@)->Ok_0,
        percent_state_change: float_field(fields, "percent_state_change"@)->Ok_0,
        scheduled_downtime_depth: u32_field(fields, "scheduled_downtime_depth"@)->Ok_0,
    }
}

/// What `fields` are as a host: the record, where every field is sound, else the
/// fault of the first field that has one.
pub open spec fn host_record(fields: Fields) -> Result<HostView, ConvertErrorView> {
    match first_fault(fields, host_layout()) {
        Some(error) => Err(error),
        None => Ok(host_of(fields)),
    }
}

/// A host that lacks the key of one of its fields, the fields before it being
/// sound, is refused with an error that names that key.
pub proof fn lemma_host_missing_key_is_named(fields: Fields, at: int)
    requires
        0 <= at < host_layout().len(),
        sound_before(fields, host_layout(), at),
        !fields.contains_key(host_field(at).0),
    ensures
        host_record(fields) == Err::<HostView, ConvertErrorView>(
            ConvertErrorView::KeyDoesNotExists(host_field(at).0),
        ),
{
    lemma_missing_key_is_named(fields, host_layout(), at);
}

/// A host that lacks the key of one of its fields is refused, whatever else it
/// holds.
pub proof fn lemma_host_missing_key_is_refused(fields: Fields, at: int)
    requires
        0 <= at < host_layout().len(),
        !fields.contains_key(host_field(at).0),
    ensures
        host_record(fields) is Err,
{
    lemma_missing_key_is_refused(fields, host_layout(), at);
}

/// A host without a name is refused for that, whatever else it holds.
pub proof fn lemma_host_name_is_asked_for_first(fields: Fields)
    requires
        !fields.contains_key("host_name"@),
    ensures
        host_record(fields) == Err::<HostView, ConvertErrorView>(
            ConvertErrorView::KeyDoesNotExists("host_name"@),
        ),
{
    lemma_missing_key_is_named(fields, host_layout(), 0);
}

impl TryFrom<KeyValues> for Host {
    type Error = ConvertError;

    /// The host that `key_values` hold.
    fn try_from(key_values: KeyValues) -> (r: Result<Host, ConvertError>)
        ensures
            match r {
                Ok(host) => host_record(key_values@) == Ok::<HostView, ConvertErrorView>(
                    host@,
                ),
                Err(error) => host_record(key_values@) == Err::<HostView, ConvertErrorView>(
                    error@,
                ),
            },
    {
        let ghost layout = host_layout();
        let host_name = string_at(&key_values, "host_name", Ghost(layout), Ghost(0))?;
        let modified_attributes = u32_at(
            &key_values,
            "modified_attributes",
            Ghost(layout),
            Ghost(1),
        )?;
        let check_command = string_at(&key_values, "check_command", Ghost(layout), Ghost(2))?;
        let check_period = string_at(&key_values, "check_period", Ghost(layout), Ghost(3))?;
        let notification_period = string_at(
            &key_values,
            "notification_period",
            Ghost(layout),
            Ghost(4),
        )?;
        let importance = u32_at(&key_values, "importance", Ghost(layout), Ghost(5))?;
        let check_interval = float_at(&key_values, "check_interval", Ghost(layout), Ghost(6))?;
        let retry_interval = float_at(&key_values, "retry_interval", Ghost(layout), Ghost(7))?;
        let event_handler = string_at(&key_values, "event_handler", Ghost(layout), Ghost(8))?;
        let has_been_checked = bool_at(&key_values, "has_been_checked", Ghost(layout), Ghost(9))?;
        let should_be_scheduled = bool_at(
            &key_values,
            "should_be_scheduled",
            Ghost(layout),
            Ghost(10),
        )?;
        let check_execution_time = float_at(
            &key_values,
            "check_execution_time",
            Ghost(layout),
            Ghost(11),
        )?;
        let check_latency = float_at(&key_values, "check_latency", Ghost(layout), Ghost(12))?;
        let check_type = check_type_at(&key_values, "check_type", Ghost(layout), Ghost(13))?;
        let current_state = host_state_at(&key_values, "current_state", Ghost(layout), Ghost(14))?;
        let last_hard_state = host_state_at(
            &key_values,
            "last_hard_state",
            Ghost(layout),
            Ghost(15),
        )?;
        let plugin_output = string_at(&key_values, "plugin_output", Ghost(layout), Ghost(16))?;
        let long_plugin_output = string_at(
            &key_values,
            "long_plugin_output",
            Ghost(layout),
            Ghost(17),
        )?;
        let performance_data = string_at(
            &key_values,
            "performance_data",
            Ghost(layout),
            Ghost(18),
        )?;
        let last_check = datetime_at(&key_values, "last_check", Ghost(layout), Ghost(19))?;
        let next_check = datetime_at(&key_values, "next_check", Ghost(layout), Ghost(20))?;
        let check_options = u32_at(&key_values, "check_options", Ghost(layout), Ghost(21))?;
        let current_attempt = u32_at(&key_values, "current_attempt", Ghost(layout), Ghost(22))?;
        let max_attempts = u32_at(&key_values, "max_attempts", Ghost(layout), Ghost(23))?;
        let state_type = state_type_at(&key_values, "state_type", Ghost(layout), Ghost(24))?;
        let last_state_change = datetime_at(
            &key_values,
            "last_state_change",
            Ghost(layout),
            Ghost(25),
        )?;
        let last_hard_state_change = datetime_at(
            &key_values,
            "last_hard_state_change",
            Ghost(layout),
            Ghost(26),
        )?;
        let last_time_up = datetime_at(&key_values, "last_time_up", Ghost(layout), Ghost(27))?;
        let last_time_down = datetime_at(&key_values, "last_time_down", Ghost(layout), Ghost(28))?;
        let last_time_unreachable = datetime_at(
            &key_values,
            "last_time_unreachable",
            Ghost(layout),
            Ghost(29),
        )?;
        let last_notification = datetime_at(
            &key_values,
            "last_notification",
            Ghost(layout),
            Ghost(30),
        )?;
        let next_notification = datetime_at(
            &key_values,
            "next_notification",
            Ghost(layout),
            Ghost(31),
        )?;
        let no_more_notifications = bool_at(
            &key_values,
            "no_more_notifications",
            Ghost(layout),
            Ghost(32),
        )?;
        let current_notification_number = u32_at(
            &key_values,
            "current_notification_number",
            Ghost(layout),
            Ghost(33),
        )?;
        let notifications_enabled = bool_at(
            &key_values,
            "notifications_enabled",
            Ghost(layout),
            Ghost(34),
        )?;
        let problem_has_been_acknowledged = bool_at(
            &key_values,
            "problem_has_been_acknowledged",
            Ghost(layout),
            Ghost(35),
        )?;
        let acknowledgement_type = acknowledgement_type_at(
            &key_values,
            "acknowledgement_type",
            Ghost(layout),
            Ghost(36),
        )?;
        let active_checks_enabled = bool_at(
            &key_values,
            "active_checks_enabled",
            Ghost(layout),
            Ghost(37),
        )?;
        let passive_checks_enabled = bool_at(
            &key_values,
            "passive_checks_enabled",
            Ghost(layout),
            Ghost(38),
        )?;
        let event_handler_enabled = bool_at(
            &key_values,
            "event_handler_enabled",
            Ghost(layout),
            Ghost(39),
        )?;
        let flap_detection_enabled = bool_at(
            &key_values,
            "flap_detection_enabled",
            Ghost(layout),
            Ghost(40),
        )?;
        let process_performance_data = bool_at(
            &key_values,
            "process_performance_data",
            Ghost(layout),
            Ghost(41),
        )?;
        let obsess = bool_at(&key_values, "obsess", Ghost(layout), Ghost(42))?;
        let last_update = datetime_at(&key_values, "last_update", Ghost(layout), Ghost(43))?;
        let is_flapping = bool_at(&key_values, "is_flapping", Ghost(layout), Ghost(44))?;
        let percent_state_change = float_at(
            &key_values,
            "percent_state_change",
            Ghost(layout),
            Ghost(45),
        )?;
        let scheduled_downtime_depth = u32_at(
            &key_values,
            "scheduled_downtime_depth",
            Ghost(layout),
            Ghost(46),
        )?;
        proof {
            lemma_no_fault(key_values@, layout);
        }
        Ok(
            Host {
                host_name,
                modified_attributes: ModifiedAttributes(modified_attributes),
                check_command,
                check_period,
                notification_period,
                importance,
                check_interval,
                retry_interval,
                event_handler,
                has_been_checked,
                should_be_scheduled,
                check_execution_time,
                check_latency,
                check_type,
                current_state,
                last_hard_state,
                plugin_output,
                long_plugin_output,
                performance_data,
                last_check,
                next_check,
                check_options: CheckOptions(check_options),
                current_attempt,
                max_attempts,
                state_type,
                last_state_change,
                last_hard_state_change,
                last_time_up,
                last_time_down,
                last_time_unreachable,
                last_notification,
                next_notification,
                no_more_notifications,
                current_notification_number,
                notifications_enabled,
                problem_has_been_acknowledged,
                acknowledgement_type,
                active_checks_enabled,
                passive_checks_enabled,
                event_handler_enabled,
                flap_detection_enabled,
                process_performance_data,
                obsess,
                last_update,
                is_flapping,
                percent_state_change,
                scheduled_downtime_depth,
            },
        )
    }
}

impl TryFromSpecImpl<KeyValues> for Host {
    open spec fn obeys_try_from_spec() -> bool {
        false
    }

    open spec fn try_from_spec(key_values: KeyValues) -> Result<Host, ConvertError> {
        arbitrary()
    }
}

impl Clone for Host {
    fn clone(&self) -> (r: Self)
        ensures
            r@ == self@,
    {
        Host {
            host_name: self.host_name.clone(),
            modified_attributes: self.modified_attributes,
            check_command: self.check_command.clone(),
            check_period: self.check_period.clone(),
            notification_period: self.notification_period.clone(),
            importance: self.importance,
            check_interval: self.check_interval.clone(),
            retry_interval: self.retry_interval.clone(),
            event_handler: self.event_handler.clone(),
            has_been_checked: self.has_been_checked,
            should_be_scheduled: self.should_be_scheduled,
            check_execution_time: self.check_execution_time.clone(),
            check_latency: self.check_latency.clone(),
            check_type: self.check_type,
            current_state: self.current_state,
            last_hard_state: self.last_hard_state,
            plugin_output: self.plugin_output.clone(),
            long_plugin_output: self.long_plugin_output.clone(),
            performance_data: self.performance_data.clone(),
            last_check: self.last_check,
            next_check: self.next_check,
            check_options: self.check_options,
            current_attempt: self.current_attempt,
            max_attempts: self.max_attempts,
            state_type: self.state_type,
            last_state_change: self.last_state_change,
            last_hard_state_change: self.last_hard_state_change,
            last_time_up: self.last_time_up,
            last_time_down: self.last_time_down,
            last_time_unreachable: self.last_time_unreachable,
            last_notification: self.last_notification,
            next_notification: self.next_notification,
            no_more_notifications: self.no_more_notifications,
            current_notification_number: self.current_notification_number,
            notifications_enabled: self.notifications_enabled,
            problem_has_been_acknowledged: self.problem_has_been_acknowledged,
            acknowledgement_type: self.acknowledgement_type,
            active_checks_enabled: self.active_checks_enabled,
            passive_checks_enabled: self.passive_checks_enabled,
            event_handler_enabled: self.event_handler_enabled,
            flap_detection_enabled: self.flap_detection_enabled,
            process_performance_data: self.process_performance_data,
            obsess: self.obsess,
            last_update: self.last_update,
            is_flapping: self.is_flapping,
            percent_state_change: self.percent_state_change.clone(),
            scheduled_downtime_depth: self.scheduled_downtime_depth,
        }
    }
}

} // verus!
