//! The status of a service, as a `servicestatus` block gives it.

use vstd::prelude::*;
use vstd::std_specs::convert::TryFromSpecImpl;
use crate::nagios::fields::KeyValues;
use crate::nagios::object::{
    acknowledgement_type_field, bool_field, check_type_field, datetime_field, float_field,
    service_state_field, state_type_field, string_field, u32_field, AcknowledgementType,
    CheckOptions, CheckType, ConvertError, ConvertErrorView, Fields, Float, ModifiedAttributes,
    ServiceState, StateType,
};
use crate::nagios::record::{
    acknowledgement_type_at, bool_at, check_type_at, datetime_at, first_fault, float_at,
    lemma_missing_key_is_named, lemma_missing_key_is_refused, lemma_no_fault, service_state_at,
    sound_before, state_type_at, string_at, u32_at, FieldKind, Layout,
};

verus! {

/// The status of one service. A time is in seconds since 1970-01-01 00:00:00 UTC,
/// and `None` where the daemon wrote `0` for a time that never was.
#[derive(Debug, PartialEq)]
pub struct Service {
    pub host_name: String,
    pub service_description: String,
    pub modified_attributes: ModifiedAttributes,
    pub check_command: String,
    pub check_period: String,
    pub notification_period: String,
    pub importance: u32,
    pub check_interval: Float,
    pub retry_interval: Float,
    pub event_handler: String,
    pub has_been_checked: bool,
    pub should_be_scheduled: bool,
    pub check_execution_time: Float,
    pub check_latency: Float,
    pub check_type: CheckType,
    pub current_state: ServiceState,
    pub last_hard_state: ServiceState,
    pub plugin_output: String,
    pub long_plugin_output: String,
    pub performance_data: String,
    pub last_check: Option<i64>,
    pub next_check: Option<i64>,
    pub check_options: CheckOptions,
    pub current_attempt: u32,
    pub max_attempts: u32,
    pub state_type: StateType,
    pub last_state_change: Option<i64>,
    pub last_hard_state_change: Option<i64>,
    pub last_time_ok: Option<i64>,
    pub last_time_warning: Option<i64>,
    pub last_time_critical: Option<i64>,
    pub last_time_unknown: Option<i64>,
    pub last_notification: Option<i64>,
    pub next_notification: Option<i64>,
    pub no_more_notifications: bool,
    pub current_notification_number: u32,
    pub notifications_enabled: bool,
    pub problem_has_been_acknowledged: bool,
    pub acknowledgement_type: AcknowledgementType,
    pub active_checks_enabled: bool,
    pub passive_checks_enabled: bool,
    pub event_handler_enabled: bool,
    pub flap_detection_enabled: bool,
    pub process_performance_data: bool,
    pub obsess: bool,
    pub last_update: Option<i64>,
    pub is_flapping: bool,
    pub percent_state_change: Float,
    pub scheduled_downtime_depth: u32,
}

/// A `Service` with each text as its characters.
pub struct ServiceView {
    pub host_name: Seq<char>,
    pub service_description: Seq<char>,
    pub modified_attributes: ModifiedAttributes,
    pub check_command: Seq<char>,
    pub check_period: Seq<char>,
    pub notification_period: Seq<char>,
    pub importance: u32,
    pub check_interval: Seq<char>,
    pub retry_interval: Seq<char>,
    pub event_handler: Seq<char>,
    pub has_been_checked: bool,
    pub should_be_scheduled: bool,
    pub check_execution_time: Seq<char>,
    pub check_latency: Seq<char>,
    pub check_type: CheckType,
    pub current_state: ServiceState,
    pub last_hard_state: ServiceState,
    pub plugin_output: Seq<char>,
    pub long_plugin_output: Seq<char>,
    pub performance_data: Seq<char>,
    pub last_check: Option<i64>,
    pub next_check: Option<i64>,
    pub check_options: CheckOptions,
    pub current_attempt: u32,
    pub max_attempts: u32,
    pub state_type: StateType,
    pub last_state_change: Option<i64>,
    pub last_hard_state_change: Option<i64>,
    pub last_time_ok: Option<i64>,
    pub last_time_warning: Option<i64>,
    pub last_time_critical: Option<i64>,
    pub last_time_unknown: Option<i64>,
    pub last_notification: Option<i64>,
    pub next_notification: Option<i64>,
    pub no_more_notifications: bool,
    pub current_notification_number: u32,
    pub notifications_enabled: bool,
    pub problem_has_been_acknowledged: bool,
    pub acknowledgement_type: AcknowledgementType,
    pub active_checks_enabled: bool,
    pub passive_checks_enabled: bool,
    pub event_handler_enabled: bool,
    pub flap_detection_enabled: bool,
    pub process_performance_data: bool,
    pub obsess: bool,
    pub last_update: Option<i64>,
    pub is_flapping: bool,
    pub percent_state_change: Seq<char>,
    pub scheduled_downtime_depth: u32,
}

impl View for Service {
    type V = ServiceView;

    open spec fn view(&self) -> ServiceView {
        ServiceView {
            host_name: self.host_name@,
            service_description: self.service_description@,
            modified_attributes: self.modified_attributes,
            check_command: self.check_command@,
            check_period: self.check_period@,
            notification_period: self.notification_period@,
            importance: self.importance,
            check_interval: self.check_interval@,
            retry_interval: self.retry_interval@,
            event_handler: self.event_handler@,
            has_been_checked: self.has_been_checked,
            should_be_scheduled: self.should_be_scheduled,
            check_execution_time: self.check_execution_time@,
            check_latency: self.check_latency@,
            check_type: self.check_type,
            current_state: self.current_state,
            last_hard_state: self.last_hard_state,
            plugin_output: self.plugin_output@,
            long_plugin_output: self.long_plugin_output@,
            performance_data: self.performance_data@,
            last_check: self.last_check,
            next_check: self.next_check,
            check_options: self.check_options,
            current_attempt: self.current_attempt,
            max_attempts: self.max_attempts,
            state_type: self.state_type,
            last_state_change: self.last_state_change,
            last_hard_state_change: self.last_hard_state_change,
            last_time_ok: self.last_time_ok,
            last_time_warning: self.last_time_warning,
            last_time_critical: self.last_time_critical,
            last_time_unknown: self.last_time_unknown,
            last_notification: self.last_notification,
            next_notification: self.next_notification,
            no_more_notifications: self.no_more_notifications,
            current_notification_number: self.current_notification_number,
            notifications_enabled: self.notifications_enabled,
            problem_has_been_acknowledged: self.problem_has_been_acknowledged,
            acknowledgement_type: self.acknowledgement_type,
            active_checks_enabled: self.active_checks_enabled,
            passive_checks_enabled: self.passive_checks_enabled,
            event_handler_enabled: self.event_handler_enabled,
            flap_detection_enabled: self.flap_detection_enabled,
            process_performance_data: self.process_performance_data,
            obsess: self.obsess,
            last_update: self.last_update,
            is_flapping: self.is_flapping,
            percent_state_change: self.percent_state_change@,
            scheduled_downtime_depth: self.scheduled_downtime_depth,
        }
    }
}

/// The field that is decoded at place `i`: its key and the kind of its value.
pub open spec fn service_field(i: int) -> (Seq<char>, FieldKind) {
    if i == 0 {
        ("host_name"@, FieldKind::Text)
    } else if i == 1 {
        ("service_description"@, FieldKind::Text)
    } else if i == 2 {
        ("modified_attributes"@, FieldKind::Count)
    } else if i == 3 {
        ("check_command"@, FieldKind::Text)
    } else if i == 4 {
        ("check_period"@, FieldKind::Text)
    } else if i == 5 {
        ("notification_period"@, FieldKind::Text)
    } else if i == 6 {
        ("importance"@, FieldKind::Count)
    } else if i == 7 {
        ("check_interval"@, FieldKind::Float)
    } else if i == 8 {
        ("retry_interval"@, FieldKind::Float)
    } else if i == 9 {
        ("event_handler"@, FieldKind::Text)
    } else if i == 10 {
        ("has_been_checked"@, FieldKind::Flag)
    } else if i == 11 {
        ("should_be_scheduled"@, FieldKind::Flag)
    } else if i == 12 {
        ("check_execution_time"@, FieldKind::Float)
    } else if i == 13 {
        ("check_latency"@, FieldKind::Float)
    } else if i == 14 {
        ("check_type"@, FieldKind::CheckType)
    } else if i == 15 {
        ("current_state"@, FieldKind::ServiceState)
    } else if i == 16 {
        ("last_hard_state"@, FieldKind::ServiceState)
    } else if i == 17 {
        ("plugin_output"@, FieldKind::Text)
    } else if i == 18 {
        ("long_plugin_output"@, FieldKind::Text)
    } else if i == 19 {
        ("performance_data"@, FieldKind::Text)
    } else if i == 20 {
        ("last_check"@, FieldKind::DateTime)
    } else if i == 21 {
        ("next_check"@, FieldKind::DateTime)
    } else if i == 22 {
        ("check_options"@, FieldKind::Count)
    } else if i == 23 {
        ("current_attempt"@, FieldKind::Count)
    } else if i == 24 {
        ("max_attempts"@, FieldKind::Count)
    } else if i == 25 {
        ("state_type"@, FieldKind::StateType)
    } else if i == 26 {
        ("last_state_change"@, FieldKind::DateTime)
    } else if i == 27 {
        ("last_hard_state_change"@, FieldKind::DateTime)
    } else if i == 28 {
        ("last_time_ok"@, FieldKind::DateTime)
    } else if i == 29 {
        ("last_time_warning"@, FieldKind::DateTime)
    } else if i == 30 {
        ("last_time_critical"@, FieldKind::DateTime)
    } else if i == 31 {
        ("last_time_unknown"@, FieldKind::DateTime)
    } else if i == 32 {
        ("last_notification"@, FieldKind::DateTime)
    } else if i == 33 {
        ("next_notification"@, FieldKind::DateTime)
    } else if i == 34 {
        ("no_more_notifications"@, FieldKind::Flag)
    } else if i == 35 {
        ("current_notification_number"@, FieldKind::Count)
    } else if i == 36 {
        ("notifications_enabled"@, FieldKind::Flag)
    } else if i == 37 {
        ("problem_has_been_acknowledged"@, FieldKind::Flag)
    } else if i == 38 {
        ("acknowledgement_type"@, FieldKind::AcknowledgementType)
    } else if i == 39 {
        ("active_checks_enabled"@, FieldKind::Flag)
    } else if i == 40 {
        ("passive_checks_enabled"@, FieldKind::Flag)
    } else if i == 41 {
        ("event_handler_enabled"@, FieldKind::Flag)
    } else if i == 42 {
        ("flap_detection_enabled"@, FieldKind::Flag)
    } else if i == 43 {
        ("process_performance_data"@, FieldKind::Flag)
    } else if i == 44 {
        ("obsess"@, FieldKind::Flag)
    } else if i == 45 {
        ("last_update"@, FieldKind::DateTime)
    } else if i == 46 {
        ("is_flapping"@, FieldKind::Flag)
    } else if i == 47 {
        ("percent_state_change"@, FieldKind::Float)
    } else {
        ("scheduled_downtime_depth"@, FieldKind::Count)
    }
}

/// The fields of a service, in the order in which they are decoded.
pub open spec fn service_layout() -> Layout {
    Seq::new(49, |i: int| service_field(i))
}

/// The service that sound `fields` hold.
pub open spec fn service_of(fields: Fields) -> ServiceView {
    ServiceView {
        host_name: string_field(fields, "host_name"@)->Ok_0,
        service_description: string_field(fields, "service_description"@)->Ok_0,
        modified_attributes: ModifiedAttributes(u32_field(fields, "modified_attributes"@)->Ok_0),
        check_command: string_field(fields, "check_command"@)->Ok_0,
        check_period: string_field(fields, "check_period"@)->Ok_0,
        notification_period: string_field(fields, "notification_period"@)->Ok_0,
        importance: u32_field(fields, "importance"@)->Ok_0,
        check_interval: float_field(fields, "check_interval"@)->Ok_0,
        retry_interval: float_field(fields, "retry_interval"@)->Ok_0,
        event_handler: string_field(fields, "event_handler"@)->Ok_0,
        has_been_checked: bool_field(fields, "has_been_checked"@)->Ok_0,
        should_be_scheduled: bool_field(fields, "should_be_scheduled"@)->Ok_0,
        check_execution_time: float_field(fields, "check_execution_time"@)->Ok_0,
        check_latency: float_field(fields, "check_latency"@)->Ok_0,
        check_type: check_type_field(fields, "check_type"@)->Ok_0,
        current_state: service_state_field(fields, "current_state"@)->Ok_0,
        last_hard_state: service_state_field(fields, "last_hard_state"@)->Ok_0,
        plugin_output: string_field(fields, "plugin_output"@)->Ok_0,
        long_plugin_output: string_field(fields, "long_plugin_output"@)->Ok_0,
        performance_data: string_field(fields, "performance_data"@)->Ok_0,
        last_check: datetime_field(fields, "last_check"@)->Ok_0,
        next_check: datetime_field(fields, "next_check"@)->Ok_0,
        check_options: CheckOptions(u32_field(fields, "check_options"@)->Ok_0),
        current_attempt: u32_field(fields, "current_attempt"@)->Ok_0,
        max_attempts: u32_field(fields, "max_attempts"@)->Ok_0,
        state_type: state_type_field(fields, "state_type"@)->Ok_0,
        last_state_change: datetime_field(fields, "last_state_change"@)->Ok_0,
        last_hard_state_change: datetime_field(fields, "last_hard_state_change"@)->Ok_0,
        last_time_ok: datetime_field(fields, "last_time_ok"@)->Ok_0,
        last_time_warning: datetime_field(fields, "last_time_warning"@)->Ok_0,
        last_time_critical: datetime_field(fields, "last_time_critical"@)->Ok_0,
        last_time_unknown: datetime_field(fields, "last_time_unknown"@)->Ok_0,
        last_notification: datetime_field(fields, "last_notification"@)->Ok_0,
        next_notification: datetime_field(fields, "next_notification"@)->Ok_0,
        no_more_notifications: bool_field(fields, "no_more_notifications"@)->Ok_0,
        current_notification_number: u32_field(fields, "current_notification_number"@)->Ok_0,
        notifications_enabled: bool_field(fields, "notifications_enabled"@)->Ok_0,
        problem_has_been_acknowledged: bool_field(fields, "problem_has_been_acknowledged"@)->Ok_0,
        acknowledgement_type: acknowledgement_type_field(fields, "acknowledgement_type"@)->Ok_0,
        active_checks_enabled: bool_field(fields, "active_checks_enabled"@)->Ok_0,
        passive_checks_enabled: bool_field(fields, "passive_checks_enabled"@)->Ok_0,
        event_handler_enabled: bool_field(fields, "event_handler_enabled"@)->Ok_0,
        flap_detection_enabled: bool_field(fields, "flap_detection_enabled"@)->Ok_0,
        process_performance_data: bool_field(fields, "process_performance_data"@)->Ok_0,
        obsess: bool_field(fields, "obsess"@)->Ok_0,
        last_update: datetime_field(fields, "last_update"@)->Ok_0,
        is_flapping: bool_field(fields, "is_flapping"@)->Ok_0,
        percent_state_change: float_field(fields, "percent_state_change"@)->Ok_0,
        scheduled_downtime_depth: u32_field(fields, "scheduled_downtime_depth"@)->Ok_0,
    }
}

/// What `fields` are as a service: the record, where every field is sound, else the
/// fault of the first field that has one.
pub open spec fn service_record(fields: Fields) -> Result<ServiceView, ConvertErrorView> {
    match first_fault(fields, service_layout()) {
        Some(error) => Err(error),
        None => Ok(service_of(fields)),
    }
}

/// A service that lacks the key of one of its fields, the fields before it being
/// sound, is refused with an error that names that key.
pub proof fn lemma_service_missing_key_is_named(fields: Fields, at: int)
    requires
        0 <= at < service_layout().len(),
        sound_before(fields, service_layout(), at),
        !fields.contains_key(service_field(at).0),
    ensures
        service_record(fields) == Err::<ServiceView, ConvertErrorView>(
            ConvertErrorView::KeyDoesNotExists(service_field(at).0),
        ),
{
    lemma_missing_key_is_named(fields, service_layout(), at);
}

/// A service that lacks the key of one of its fields is refused, whatever else it
/// holds.
pub proof fn lemma_service_missing_key_is_refused(fields: Fields, at: int)
    requires
        0 <= at < service_layout().len(),
        !fields.contains_key(service_field(at).0),
    ensures
        service_record(fields) is Err,
{
    lemma_missing_key_is_refused(fields, service_layout(), at);
}

/// A service without the name of its host is refused for that, and one with
/// that name but without a description for that, whatever else it holds.
pub proof fn lemma_service_identity_is_asked_for_first(fields: Fields)
    ensures
        !fields.contains_key("host_name"@) ==> service_record(fields) == Err::<
            ServiceView,
            ConvertErrorView,
        >(ConvertErrorView::KeyDoesNotExists("host_name"@)),
        fields.contains_key("host_name"@) && !fields.contains_key("service_description"@)
            ==> service_record(fields) == Err::<ServiceView, ConvertErrorView>(
            ConvertErrorView::KeyDoesNotExists("service_description"@),
        ),
{
    if !fields.contains_key("host_name"@) {
        lemma_missing_key_is_named(fields, service_layout(), 0);
    } else if !fields.contains_key("service_description"@) {
        assert(service_layout()[0] == service_field(0));
        lemma_missing_key_is_named(fields, service_layout(), 1);
    }
}

impl TryFrom<KeyValues> for Service {
    type Error = ConvertError;

    /// The service that `key_values` hold.
    fn try_from(key_values: KeyValues) -> (r: Result<Service, ConvertError>)
        ensures
            match r {
                Ok(service) => service_record(key_values@) == Ok::<ServiceView, ConvertErrorView>(
                    service@,
                ),
                Err(error) => service_record(key_values@) == Err::<ServiceView, ConvertErrorView>(
                    error@,
                ),
            },
    {
        let ghost layout = service_layout();
        let host_name = string_at(&key_values, "host_name", Ghost(layout), Ghost(0))?;
        let service_description = string_at(
            &key_values,
            "service_description",
            Ghost(layout),
            Ghost(1),
        )?;
        let modified_attributes = u32_at(
            &key_values,
            "modified_attributes",
            Ghost(layout),
            Ghost(2),
        )?;
        let check_command = string_at(&key_values, "check_command", Ghost(layout), Ghost(3))?;
        let check_period = string_at(&key_values, "check_period", Ghost(layout), Ghost(4))?;
        let notification_period = string_at(
            &key_values,
            "notification_period",
            Ghost(layout),
            Ghost(5),
        )?;
        let importance = u32_at(&key_values, "importance", Ghost(layout), Ghost(6))?;
        let check_interval = float_at(&key_values, "check_interval", Ghost(layout), Ghost(7))?;
        let retry_interval = float_at(&key_values, "retry_interval", Ghost(layout), Ghost(8))?;
        let event_handler = string_at(&key_values, "event_handler", Ghost(layout), Ghost(9))?;
        let has_been_checked = bool_at(&key_values, "has_been_checked", Ghost(layout), Ghost(10))?;
        let should_be_scheduled = bool_at(
            &key_values,
            "should_be_scheduled",
            Ghost(layout),
            Ghost(11),
        )?;
        let check_execution_time = float_at(
            &key_values,
            "check_execution_time",
            Ghost(layout),
            Ghost(12),
        )?;
        let check_latency = float_at(&key_values, "check_latency", Ghost(layout), Ghost(13))?;
        let check_type = check_type_at(&key_values, "check_type", Ghost(layout), Ghost(14))?;
        let current_state = service_state_at(
            &key_values,
            "current_state",
            Ghost(layout),
            Ghost(15),
        )?;
        let last_hard_state = service_state_at(
            &key_values,
            "last_hard_state",
            Ghost(layout),
            Ghost(16),
        )?;
        let plugin_output = string_at(&key_values, "plugin_output", Ghost(layout), Ghost(17))?;
        let long_plugin_output = string_at(
            &key_values,
            "long_plugin_output",
            Ghost(layout),
            Ghost(18),
        )?;
        let performance_data = string_at(
            &key_values,
            "performance_data",
            Ghost(layout),
            Ghost(19),
        )?;
        let last_check = datetime_at(&key_values, "last_check", Ghost(layout), Ghost(20))?;
        let next_check = datetime_at(&key_values, "next_check", Ghost(layout), Ghost(21))?;
        let check_options = u32_at(&key_values, "check_options", Ghost(layout), Ghost(22))?;
        let current_attempt = u32_at(&key_values, "current_attempt", Ghost(layout), Ghost(23))?;
        let max_attempts = u32_at(&key_values, "max_attempts", Ghost(layout), Ghost(24))?;
        let state_type = state_type_at(&key_values, "state_type", Ghost(layout), Ghost(25))?;
        let last_state_change = datetime_at(
            &key_values,
            "last_state_change",
            Ghost(layout),
            Ghost(26),
        )?;
        let last_hard_state_change = datetime_at(
            &key_values,
            "last_hard_state_change",
            Ghost(layout),
            Ghost(27),
        )?;
        let last_time_ok = datetime_at(&key_values, "last_time_ok", Ghost(layout), Ghost(28))?;
        let last_time_warning = datetime_at(
            &key_values,
            "last_time_warning",
            Ghost(layout),
            Ghost(29),
        )?;
        let last_time_critical = datetime_at(
            &key_values,
            "last_time_critical",
            Ghost(layout),
            Ghost(30),
        )?;
        let last_time_unknown = datetime_at(
            &key_values,
            "last_time_unknown",
            Ghost(layout),
            Ghost(31),
        )?;
        let last_notification = datetime_at(
            &key_values,
            "last_notification",
            Ghost(layout),
            Ghost(32),
        )?;
        let next_notification = datetime_at(
            &key_values,
            "next_notification",
            Ghost(layout),
            Ghost(33),
        )?;
        let no_more_notifications = bool_at(
            &key_values,
            "no_more_notifications",
            Ghost(layout),
            Ghost(34),
        )?;
        let current_notification_number = u32_at(
            &key_values,
            "current_notification_number",
            Ghost(layout),
            Ghost(35),
        )?;
        let notifications_enabled = bool_at(
            &key_values,
            "notifications_enabled",
            Ghost(layout),
            Ghost(36),
        )?;
        let problem_has_been_acknowledged = bool_at(
            &key_values,
            "problem_has_been_acknowledged",
            Ghost(layout),
            Ghost(37),
        )?;
        let acknowledgement_type = acknowledgement_type_at(
            &key_values,
            "acknowledgement_type",
            Ghost(layout),
            Ghost(38),
        )?;
        let active_checks_enabled = bool_at(
            &key_values,
            "active_checks_enabled",
            Ghost(layout),
            Ghost(39),
        )?;
        let passive_checks_enabled = bool_at(
            &key_values,
            "passive_checks_enabled",
            Ghost(layout),
            Ghost(40),
        )?;
        let event_handler_enabled = bool_at(
            &key_values,
            "event_handler_enabled",
            Ghost(layout),
            Ghost(41),
        )?;
        let flap_detection_enabled = bool_at(
            &key_values,
            "flap_detection_enabled",
            Ghost(layout),
            Ghost(42),
        )?;
        let process_performance_data = bool_at(
            &key_values,
            "process_performance_data",
            Ghost(layout),
            Ghost(43),
        )?;
        let obsess = bool_at(&key_values, "obsess", Ghost(layout), Ghost(44))?;
        let last_update = datetime_at(&key_values, "last_update", Ghost(layout), Ghost(45))?;
        let is_flapping = bool_at(&key_values, "is_flapping", Ghost(layout), Ghost(46))?;
        let percent_state_change = float_at(
            &key_values,
            "percent_state_change",
            Ghost(layout),
            Ghost(47),
        )?;
        let scheduled_downtime_depth = u32_at(
            &key_values,
            "scheduled_downtime_depth",
            Ghost(layout),
            Ghost(48),
        )?;
        proof {
            lemma_no_fault(key_values@, layout);
        }
        Ok(
            Service {
                host_name,
                service_description,
                modified_attributes: ModifiedAttributes(modified_attributes),
                check_command,
                check_period,
                notification_period,
                importance,
                check_interval,
                retry_interval,
                event_handler,
                has_been_checked,
                should_be_scheduled,
                check_execution_time,
                check_latency,
                check_type,
                current_state,
                last_hard_state,
                plugin_output,
                long_plugin_output,
                performance_data,
                last_check,
                next_check,
                check_options: CheckOptions(check_options),
                current_attempt,
                max_attempts,
                state_type,
                last_state_change,
                last_hard_state_change,
                last_time_ok,
                last_time_warning,
                last_time_critical,
                last_time_unknown,
                last_notification,
                next_notification,
                no_more_notifications,
                current_notification_number,
                notifications_enabled,
                problem_has_been_acknowledged,
                acknowledgement_type,
                active_checks_enabled,
                passive_checks_enabled,
                event_handler_enabled,
                flap_detection_enabled,
                process_performance_data,
                obsess,
                last_update,
                is_flapping,
                percent_state_change,
                scheduled_downtime_depth,
            },
        )
    }
}

impl TryFromSpecImpl<KeyValues> for Service {
    open spec fn obeys_try_from_spec() -> bool {
        false
    }

    open spec fn try_from_spec(key_values: KeyValues) -> Result<Service, ConvertError> {
        arbitrary()
    }
}

impl Clone for Service {
    fn clone(&self) -> (r: Self)
        ensures
            r@ == self@,
    {
        Service {
            host_name: self.host_name.clone(),
            service_description: self.service_description.clone(),
            modified_attributes: self.modified_attributes,
            check_command: self.check_command.clone(),
            check_period: self.check_period.clone(),
            notification_period: self.notification_period.clone(),
            importance: self.importance,
            check_interval: self.check_interval.clone(),
            retry_interval: self.retry_interval.clone(),
            event_handler: self.event_handler.clone(),
            has_been_checked: self.has_been_checked,
            should_be_scheduled: self.should_be_scheduled,
            check_execution_time: self.check_execution_time.clone(),
            check_latency: self.check_latency.clone(),
            check_type: self.check_type,
            current_state: self.current_state,
            last_hard_state: self.last_hard_state,
            plugin_output: self.plugin_output.clone(),
            long_plugin_output: self.long_plugin_output.clone(),
            performance_data: self.performance_data.clone(),
            last_check: self.last_check,
            next_check: self.next_check,
            check_options: self.check_options,
            current_attempt: self.current_attempt,
            max_attempts: self.max_attempts,
            state_type: self.state_type,
            last_state_change: self.last_state_change,
            last_hard_state_change: self.last_hard_state_change,
            last_time_ok: self.last_time_ok,
            last_time_warning: self.last_time_warning,
            last_time_critical: self.last_time_critical,
            last_time_unknown: self.last_time_unknown,
            last_notification: self.last_notification,
            next_notification: self.next_notification,
            no_more_notifications: self.no_more_notifications,
            current_notification_number: self.current_notification_number,
            notifications_enabled: self.notifications_enabled,
            problem_has_been_acknowledged: self.problem_has_been_acknowledged,
            acknowledgement_type: self.acknowledgement_type,
            active_checks_enabled: self.active_checks_enabled,
            passive_checks_enabled: self.passive_checks_enabled,
            event_handler_enabled: self.event_handler_enabled,
            flap_detection_enabled: self.flap_detection_enabled,
            process_performance_data: self.process_performance_data,
            obsess: self.obsess,
            last_update: self.last_update,
            is_flapping: self.is_flapping,
            percent_state_change: self.percent_state_change.clone(),
            scheduled_downtime_depth: self.scheduled_downtime_depth,
        }
    }
}

} // verus!
