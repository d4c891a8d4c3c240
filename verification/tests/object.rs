use chrono::{DateTime, TimeZone, Utc};
use nagrs::nagios::fields::KeyValues;
use nagrs::nagios::object::{
    get_acknowledgement_type, get_bool, get_check_type, get_datetime, get_f64, get_host_state,
    get_raw, get_service_state, get_state_type, get_string, get_u32, AcknowledgementType,
    CheckOptions, CheckType, ConvertError, Float, Host, HostState, ModifiedAttributes, Service,
    ServiceState, StateType,
};

fn key_values(pairs: &[(&str, &str)]) -> KeyValues {
    let mut map = KeyValues::new();
    for (key, value) in pairs {
        map.insert(key.to_string(), value.to_string());
    }
    map
}

fn number(float: &Float) -> f64 {
    float.as_str().parse::<f64>().unwrap()
}

fn datetime(seconds: Option<i64>) -> Option<DateTime<Utc>> {
    seconds.map(|s| Utc.timestamp_opt(s, 0).unwrap())
}

fn ymd_hms(year: i32, month: u32, day: u32, hour: u32, min: u32, sec: u32) -> DateTime<Utc> {
    Utc.with_ymd_and_hms(year, month, day, hour, min, sec).unwrap()
}

#[test]
fn test_get_raw() {
    let key_values = key_values(&[("key", "value")]);
    assert_eq!(get_raw("key", &key_values).unwrap(), "value");
}

#[test]
fn test_get_bool() {
    let test_cases = vec![
        ("0", Ok(false)),
        ("1", Ok(true)),
        ("2", Err(ConvertError::InvalidBooleanValue("2".into()))),
        ("hoge", Err(ConvertError::InvalidBooleanValue("hoge".into()))),
    ];

    for test_case in test_cases {
        let key_values = key_values(&[("key", test_case.0)]);
        assert_eq!(get_bool("key", &key_values), test_case.1);
    }
}

#[test]
fn test_get_string() {
    let test_cases: Vec<(&str, Result<String, ConvertError>)> =
        vec![("hoge", Ok("hoge".into())), ("fuga", Ok("fuga".into()))];

    for test_case in test_cases {
        let key_values = key_values(&[("key", test_case.0)]);
        assert_eq!(get_string("key", &key_values), test_case.1);
    }
}

#[test]
fn test_get_u32() {
    let test_cases = vec![
        ("0", Ok(0)),
        ("1", Ok(1)),
        ("hoge", Err(ConvertError::FailedToParse("hoge".into(), "u32".into()))),
    ];
    for test_case in test_cases {
        let key_values = key_values(&[("key", test_case.0)]);
        assert_eq!(get_u32("key", &key_values), test_case.1);
    }
}

#[test]
fn test_get_f64() {
    let test_cases = vec![
        ("1.000000", Ok(1.0)),
        ("5.000000", Ok(5.0)),
        ("hoge", Err(ConvertError::FailedToParse("hoge".into(), "f64".into()))),
    ];
    for test_case in test_cases {
        let key_values = key_values(&[("key", test_case.0)]);
        assert_eq!(get_f64("key", &key_values).map(|float| number(&float)), test_case.1);
    }
}

#[test]
fn test_get_datetime() {
    let test_cases = vec![
        ("0", Ok(None)),
        ("1647775378", Ok(Some(ymd_hms(2022, 3, 20, 11, 22, 58)))),
        ("hoge", Err(ConvertError::FailedToParse("hoge".into(), "DateTime<Utc>".into()))),
    ];
    for test_case in test_cases {
        let key_values = key_values(&[("key", test_case.0)]);
        assert_eq!(get_datetime("key", &key_values).map(datetime), test_case.1);
    }
}

#[test]
fn test_get_check_type() {
    let test_cases = vec![
        ("0", Ok(CheckType::Active)),
        ("1", Ok(CheckType::Passive)),
        ("2", Ok(CheckType::Parent)),
        ("3", Ok(CheckType::File)),
        ("4", Ok(CheckType::Other)),
        ("hoge", Err(ConvertError::InvalidCheckTypeValue("hoge".into()))),
    ];
    for test_case in test_cases {
        let key_values = key_values(&[("key", test_case.0)]);
        assert_eq!(get_check_type("key", &key_values), test_case.1);
    }
}

#[test]
fn test_get_host_state() {
    let test_cases = vec![
        ("0", Ok(HostState::Up)),
        ("1", Ok(HostState::Down)),
        ("2", Ok(HostState::Unreachable)),
        ("hoge", Err(ConvertError::InvalidHostStateValue("hoge".into()))),
    ];
    for test_case in test_cases {
        let key_values = key_values(&[("key", test_case.0)]);
        assert_eq!(get_host_state("key", &key_values), test_case.1);
    }
}

#[test]
fn test_get_service_state() {
    let test_cases = vec![
        ("0", Ok(ServiceState::Okay)),
        ("1", Ok(ServiceState::Warning)),
        ("2", Ok(ServiceState::Critical)),
        ("3", Ok(ServiceState::Unknown)),
        ("hoge", Err(ConvertError::InvalidServiceStateValue("hoge".into()))),
    ];
    for test_case in test_cases {
        let key_values = key_values(&[("key", test_case.0)]);
        assert_eq!(get_service_state("key", &key_values), test_case.1);
    }
}

#[test]
fn test_get_acknowledgement_type() {
    let test_cases = vec![
        ("0", Ok(AcknowledgementType::Unacknowledged)),
        ("1", Ok(AcknowledgementType::Normal)),
        ("2", Ok(AcknowledgementType::Sticky)),
        ("hoge", Err(ConvertError::InvalidAcknowledgementTypeValue("hoge".into()))),
    ];
    for test_case in test_cases {
        let key_values = key_values(&[("key", test_case.0)]);
        assert_eq!(get_acknowledgement_type("key", &key_values), test_case.1);
    }
}

#[test]
fn test_get_state_type() {
    let test_cases = vec![
        ("0", Ok(StateType::Soft)),
        ("1", Ok(StateType::Hard)),
        ("hoge", Err(ConvertError::InvalidStateTypeValue("hoge".into()))),
    ];
    for test_case in test_cases {
        let key_values = key_values(&[("key", test_case.0)]);
        assert_eq!(get_state_type("key", &key_values), test_case.1);
    }
}

fn host_fields() -> Vec<(&'static str, &'static str)> {
    vec![
        ("host_name", "localhost"),
        ("modified_attributes", "0"),
        ("check_command", "check-host-alive"),
        ("check_period", "24x7"),
        ("notification_period", "workhours"),
        ("importance", "0"),
        ("check_interval", "5.000000"),
        ("retry_interval", "1.000000"),
        ("event_handler", ""),
        ("has_been_checked", "1"),
        ("should_be_scheduled", "1"),
        ("check_execution_time", "4.196"),
        ("check_latency", "0.368"),
        ("check_type", "0"),
        ("current_state", "0"),
        ("last_hard_state", "0"),
        ("plugin_output", "PING OK - Packet loss = 0%, RTA = 0.04 ms"),
        ("long_plugin_output", ""),
        ("performance_data", "rta=0.041000ms;3000.000000;5000.000000;0.000000 pl=0%;80;100;0"),
        ("last_check", "1647775378"),
        ("next_check", "1647775678"),
        ("check_options", "0"),
        ("current_attempt", "1"),
        ("max_attempts", "10"),
        ("state_type", "1"),
        ("last_state_change", "0"),
        ("last_hard_state_change", "0"),
        ("last_time_up", "1647775378"),
        ("last_time_down", "0"),
        ("last_time_unreachable", "0"),
        ("last_notification", "0"),
        ("next_notification", "0"),
        ("no_more_notifications", "0"),
        ("current_notification_number", "0"),
        ("notifications_enabled", "1"),
        ("problem_has_been_acknowledged", "0"),
        ("acknowledgement_type", "0"),
        ("active_checks_enabled", "1"),
        ("passive_checks_enabled", "1"),
        ("event_handler_enabled", "1"),
        ("flap_detection_enabled", "1"),
        ("process_performance_data", "1"),
        ("obsess", "1"),
        ("last_update", "1647775437"),
        ("is_flapping", "0"),
        ("percent_state_change", "0.00"),
        ("scheduled_downtime_depth", "0"),
    ]
}

#[test]
fn host_try_from() {
    let key_values = key_values(&host_fields());

    let host = Host::try_from(key_values);
    assert_eq!(host.is_err(), false);

    let host = host.unwrap();
    assert_eq!(host.host_name, "localhost".to_string());
    assert_eq!(host.modified_attributes, ModifiedAttributes(0));
    assert_eq!(host.check_command, "check-host-alive".to_string());
    assert_eq!(host.check_period, "24x7".to_string());
    assert_eq!(host.notification_period, "workhours".to_string());
    assert_eq!(host.importance, 0);
    assert_eq!(number(&host.check_interval), 5.0);
    assert_eq!(number(&host.retry_interval), 1.0);
    assert_eq!(host.event_handler, "".to_string());
    assert_eq!(host.has_been_checked, true);
    assert_eq!(host.should_be_scheduled, true);
    assert_eq!(number(&host.check_execution_time), 4.196);
    assert_eq!(number(&host.check_latency), 0.368);
    assert_eq!(host.check_type, CheckType::Active);
    assert_eq!(host.current_state, HostState::Up);
    assert_eq!(host.last_hard_state, HostState::Up);
    assert_eq!(host.plugin_output, "PING OK - Packet loss = 0%, RTA = 0.04 ms".to_string());
    assert_eq!(host.long_plugin_output, "".to_string());
    assert_eq!(
        host.performance_data,
        "rta=0.041000ms;3000.000000;5000.000000;0.000000 pl=0%;80;100;0".to_string()
    );
    assert_eq!(datetime(host.last_check), Some(ymd_hms(2022, 3, 20, 11, 22, 58)));
    assert_eq!(datetime(host.next_check), Some(ymd_hms(2022, 3, 20, 11, 27, 58)));
    assert_eq!(host.check_options, CheckOptions(0));
    assert_eq!(host.current_attempt, 1);
    assert_eq!(host.max_attempts, 10);
    assert_eq!(host.state_type, StateType::Hard);
    assert_eq!(datetime(host.last_state_change), None);
    assert_eq!(datetime(host.last_hard_state_change), None);
    assert_eq!(datetime(host.last_time_up), Some(ymd_hms(2022, 3, 20, 11, 22, 58)));
    assert_eq!(datetime(host.last_time_down), None);
    assert_eq!(datetime(host.last_time_unreachable), None);
    assert_eq!(datetime(host.last_notification), None);
    assert_eq!(datetime(host.next_notification), None);
    assert_eq!(host.no_more_notifications, false);
    assert_eq!(host.current_notification_number, 0);
    assert_eq!(host.notifications_enabled, true);
    assert_eq!(host.problem_has_been_acknowledged, false);
    assert_eq!(host.acknowledgement_type, AcknowledgementType::Unacknowledged);
    assert_eq!(host.active_checks_enabled, true);
    assert_eq!(host.passive_checks_enabled, true);
    assert_eq!(host.event_handler_enabled, true);
    assert_eq!(host.flap_detection_enabled, true);
    assert_eq!(host.process_performance_data, true);
    assert_eq!(host.obsess, true);
    assert_eq!(datetime(host.last_update), Some(ymd_hms(2022, 3, 20, 11, 23, 57)));
    assert_eq!(host.is_flapping, false);
    assert_eq!(number(&host.percent_state_change), 0.00);
    assert_eq!(host.scheduled_downtime_depth, 0);
}

fn service_fields() -> Vec<(&'static str, &'static str)> {
    vec![
        ("host_name", "localhost"),
        ("service_description", "Current Load"),
        ("modified_attributes", "0"),
        ("check_command", "check_local_load!5.0,4.0,3.0!10.0,6.0,4.0"),
        ("check_period", "24x7"),
        ("notification_period", "24x7"),
        ("importance", "0"),
        ("check_interval", "5.000000"),
        ("retry_interval", "1.000000"),
        ("event_handler", ""),
        ("has_been_checked", "1"),
        ("should_be_scheduled", "1"),
        ("check_execution_time", "0.003"),
        ("check_latency", "0.001"),
        ("check_type", "0"),
        ("current_state", "0"),
        ("last_hard_state", "0"),
        ("current_attempt", "1"),
        ("max_attempts", "4"),
        ("state_type", "1"),
        ("last_state_change", "0"),
        ("last_hard_state_change", "0"),
        ("last_time_ok", "1647775419"),
        ("last_time_warning", "0"),
        ("last_time_unknown", "0"),
        ("last_time_critical", "0"),
        ("plugin_output", "OK - load average: 0.04, 0.03, 0.00"),
        ("long_plugin_output", ""),
        (
            "performance_data",
            "load1=0.040;5.000;10.000;0; load5=0.030;4.000;6.000;0; load15=0.000;3.000;4.000;0;",
        ),
        ("last_check", "1647775419"),
        ("next_check", "1647775719"),
        ("check_options", "0"),
        ("current_notification_number", "0"),
        ("last_notification", "0"),
        ("next_notification", "0"),
        ("no_more_notifications", "0"),
        ("notifications_enabled", "1"),
        ("active_checks_enabled", "1"),
        ("passive_checks_enabled", "1"),
        ("event_handler_enabled", "1"),
        ("problem_has_been_acknowledged", "0"),
        ("acknowledgement_type", "0"),
        ("flap_detection_enabled", "1"),
        ("process_performance_data", "1"),
        ("obsess", "1"),
        ("last_update", "1647775437"),
        ("is_flapping", "0"),
        ("percent_state_change", "0.00"),
        ("scheduled_downtime_depth", "0"),
    ]
}

#[test]
fn service_try_from() {
    let key_values = key_values(&service_fields());

    let service = Service::try_from(key_values);
    assert_eq!(service.is_err(), false);

    let service = service.unwrap();
    assert_eq!(service.host_name, "localhost".to_string());
    assert_eq!(service.service_description, "Current Load".to_string());
    assert_eq!(service.modified_attributes, ModifiedAttributes(0));
    assert_eq!(service.check_command, "check_local_load!5.0,4.0,3.0!10.0,6.0,4.0".to_string());
    assert_eq!(service.check_period, "24x7".to_string());
    assert_eq!(service.notification_period, "24x7".to_string());
    assert_eq!(service.importance, 0);
    assert_eq!(number(&service.check_interval), 5.0);
    assert_eq!(number(&service.retry_interval), 1.0);
    assert_eq!(service.event_handler, "".to_string());
    assert_eq!(service.has_been_checked, true);
    assert_eq!(service.should_be_scheduled, true);
    assert_eq!(number(&service.check_execution_time), 0.003);
    assert_eq!(number(&service.check_latency), 0.001);
    assert_eq!(service.check_type, CheckType::Active);
    assert_eq!(service.current_state, ServiceState::Okay);
    assert_eq!(service.last_hard_state, ServiceState::Okay);
    assert_eq!(service.current_attempt, 1);
    assert_eq!(service.max_attempts, 4);
    assert_eq!(service.state_type, StateType::Hard);
    assert_eq!(datetime(service.last_state_change), None);
    assert_eq!(datetime(service.last_hard_state_change), None);
    assert_eq!(datetime(service.last_time_ok), Some(ymd_hms(2022, 3, 20, 11, 23, 39)));
    assert_eq!(datetime(service.last_time_warning), None);
    assert_eq!(datetime(service.last_time_unknown), None);
    assert_eq!(datetime(service.last_time_critical), None);
    assert_eq!(service.plugin_output, "OK - load average: 0.04, 0.03, 0.00".to_string());
    assert_eq!(service.long_plugin_output, "".to_string());
    assert_eq!(
        service.performance_data,
        "load1=0.040;5.000;10.000;0; load5=0.030;4.000;6.000;0; load15=0.000;3.000;4.000;0;"
            .to_string()
    );
    assert_eq!(datetime(service.last_check), Some(ymd_hms(2022, 3, 20, 11, 23, 39)));
    assert_eq!(datetime(service.next_check), Some(ymd_hms(2022, 3, 20, 11, 28, 39)));
    assert_eq!(service.check_options, CheckOptions(0));
    assert_eq!(service.current_notification_number, 0);
    assert_eq!(datetime(service.last_notification), None);
    assert_eq!(datetime(service.next_notification), None);
    assert_eq!(service.no_more_notifications, false);
    assert_eq!(service.notifications_enabled, true);
    assert_eq!(service.active_checks_enabled, true);
    assert_eq!(service.passive_checks_enabled, true);
    assert_eq!(service.event_handler_enabled, true);
    assert_eq!(service.problem_has_been_acknowledged, false);
    assert_eq!(service.acknowledgement_type, AcknowledgementType::Unacknowledged);
    assert_eq!(service.flap_detection_enabled, true);
    assert_eq!(service.process_performance_data, true);
    assert_eq!(service.obsess, true);
    assert_eq!(datetime(service.last_update), Some(ymd_hms(2022, 3, 20, 11, 23, 57)));
    assert_eq!(service.is_flapping, false);
    assert_eq!(number(&service.percent_state_change), 0.00);
    assert_eq!(service.scheduled_downtime_depth, 0);
}

fn without(fields: &[(&'static str, &'static str)], key: &str) -> KeyValues {
    let kept: Vec<(&str, &str)> = fields.iter().filter(|(k, _)| *k != key).cloned().collect();
    key_values(&kept)
}

fn with(fields: &[(&'static str, &'static str)], key: &str, value: &'static str) -> KeyValues {
    let mut map = key_values(fields);
    map.insert(key.to_string(), value.to_string());
    map
}

#[test]
fn missing_key_is_named() {
    assert_eq!(get_raw("key", &KeyValues::new()), Err(ConvertError::KeyDoesNotExists("key".into())));
    assert_eq!(get_bool("key", &KeyValues::new()), Err(ConvertError::KeyDoesNotExists("key".into())));
    assert_eq!(
        get_f64("key", &KeyValues::new()),
        Err(ConvertError::KeyDoesNotExists("key".into()))
    );
    assert_eq!(
        get_datetime("key", &KeyValues::new()),
        Err(ConvertError::KeyDoesNotExists("key".into()))
    );
}

#[test]
fn host_without_one_key_names_that_key() {
    let fields = host_fields();
    for (key, _) in fields.iter() {
        assert_eq!(
            Host::try_from(without(&fields, key)),
            Err(ConvertError::KeyDoesNotExists(key.to_string()))
        );
    }
}

#[test]
fn service_without_one_key_names_that_key() {
    let fields = service_fields();
    for (key, _) in fields.iter() {
        assert_eq!(
            Service::try_from(without(&fields, key)),
            Err(ConvertError::KeyDoesNotExists(key.to_string()))
        );
    }
}

#[test]
fn identity_keys_are_asked_for_first() {
    assert_eq!(
        Host::try_from(KeyValues::new()),
        Err(ConvertError::KeyDoesNotExists("host_name".into()))
    );
    assert_eq!(
        Service::try_from(KeyValues::new()),
        Err(ConvertError::KeyDoesNotExists("host_name".into()))
    );
    assert_eq!(
        Service::try_from(key_values(&[("host_name", "web01"), ("check_command", "x")])),
        Err(ConvertError::KeyDoesNotExists("service_description".into()))
    );
}

#[test]
fn first_fault_in_the_order_of_the_fields_wins() {
    let mut map = with(&host_fields(), "has_been_checked", "yes");
    map.insert("importance".to_string(), "many".to_string());
    map.insert("obsess".to_string(), "2".to_string());
    assert_eq!(
        Host::try_from(map),
        Err(ConvertError::FailedToParse("many".into(), "u32".into()))
    );
}

#[test]
fn every_kind_of_fault_of_a_host() {
    let fields = host_fields();
    assert_eq!(
        Host::try_from(with(&fields, "modified_attributes", "-1")),
        Err(ConvertError::FailedToParse("-1".into(), "u32".into()))
    );
    assert_eq!(
        Host::try_from(with(&fields, "check_interval", "fast")),
        Err(ConvertError::FailedToParse("fast".into(), "f64".into()))
    );
    assert_eq!(
        Host::try_from(with(&fields, "last_check", "now")),
        Err(ConvertError::FailedToParse("now".into(), "DateTime<Utc>".into()))
    );
    assert_eq!(
        Host::try_from(with(&fields, "obsess", "true")),
        Err(ConvertError::InvalidBooleanValue("true".into()))
    );
    assert_eq!(
        Host::try_from(with(&fields, "check_type", "5")),
        Err(ConvertError::InvalidCheckTypeValue("5".into()))
    );
    assert_eq!(
        Host::try_from(with(&fields, "current_state", "3")),
        Err(ConvertError::InvalidHostStateValue("3".into()))
    );
    assert_eq!(
        Host::try_from(with(&fields, "acknowledgement_type", "3")),
        Err(ConvertError::InvalidAcknowledgementTypeValue("3".into()))
    );
    assert_eq!(
        Host::try_from(with(&fields, "state_type", "2")),
        Err(ConvertError::InvalidStateTypeValue("2".into()))
    );
    assert_eq!(
        Service::try_from(with(&service_fields(), "last_hard_state", "4")),
        Err(ConvertError::InvalidServiceStateValue("4".into()))
    );
}

#[test]
fn only_zero_and_one_are_truth_values() {
    for value in ["2", "true", "", "00", "01", " 1", "1 ", "+1", "-0", "one", "\u{ff10}"] {
        assert_eq!(
            get_bool("key", &key_values(&[("key", value)])),
            Err(ConvertError::InvalidBooleanValue(value.to_string()))
        );
    }
}

#[test]
fn time_zero_is_no_time() {
    assert_eq!(get_datetime("key", &key_values(&[("key", "0")])), Ok(None));
    assert_eq!(get_datetime("key", &key_values(&[("key", "00")])), Ok(Some(0)));
    assert_eq!(get_datetime("key", &key_values(&[("key", "+0")])), Ok(Some(0)));
    assert_eq!(get_datetime("key", &key_values(&[("key", "-0")])), Ok(Some(0)));
    assert_eq!(get_datetime("key", &key_values(&[("key", "1647775378")])), Ok(Some(1647775378)));
    assert_eq!(get_datetime("key", &key_values(&[("key", "-1")])), Ok(Some(-1)));
    assert_eq!(
        get_datetime("key", &key_values(&[("key", "9223372036854775807")])),
        Ok(Some(i64::MAX))
    );
    assert_eq!(
        get_datetime("key", &key_values(&[("key", "-9223372036854775808")])),
        Ok(Some(i64::MIN))
    );
    for value in ["", "hoge", "1.5", "9223372036854775808", "12a", " 12", "0x10"] {
        assert_eq!(
            get_datetime("key", &key_values(&[("key", value)])),
            Err(ConvertError::FailedToParse(value.to_string(), "DateTime<Utc>".to_string()))
        );
    }
}

#[test]
fn unsigned_numbers_within_their_range() {
    assert_eq!(get_u32("key", &key_values(&[("key", "4294967295")])), Ok(u32::MAX));
    assert_eq!(get_u32("key", &key_values(&[("key", "+7")])), Ok(7));
    assert_eq!(get_u32("key", &key_values(&[("key", "007")])), Ok(7));
    for value in ["4294967296", "-1", "-0", "", "+", "1 ", "1_0", "99999999999999999999999"] {
        assert_eq!(
            get_u32("key", &key_values(&[("key", value)])),
            Err(ConvertError::FailedToParse(value.to_string(), "u32".to_string()))
        );
    }
}

#[test]
fn float_keeps_its_literal() {
    let float = Float::parse("4.196").unwrap();
    assert_eq!(float.as_str(), "4.196");
    assert_eq!(float.clone(), float);
    assert_eq!(number(&float), 4.196);
    assert_eq!(Float::parse("4,196"), None);
    assert_eq!(get_f64("key", &key_values(&[("key", "1e3")])).map(|f| number(&f)), Ok(1000.0));
}

#[test]
fn attributes_and_options_hold_their_bits() {
    assert_eq!(ModifiedAttributes::from(5), ModifiedAttributes(5));
    assert_eq!(CheckOptions::from(7), CheckOptions(7));
    assert_eq!(ModifiedAttributes::from(5).0, 5);
    let host = Host::try_from(with(&host_fields(), "modified_attributes", "16")).unwrap();
    assert_eq!(host.modified_attributes, ModifiedAttributes(16));
    let host = Host::try_from(with(&host_fields(), "check_options", "3")).unwrap();
    assert_eq!(host.check_options, CheckOptions(3));
}

#[test]
fn clone_of_a_record_is_equal() {
    let host = Host::try_from(key_values(&host_fields())).unwrap();
    assert_eq!(host.clone(), host);
    let service = Service::try_from(key_values(&service_fields())).unwrap();
    assert_eq!(service.clone(), service);
}

#[test]
fn keys_that_a_record_does_not_know_are_passed_over() {
    let host = Host::try_from(with(&host_fields(), "_CUSTOM", "x")).unwrap();
    assert_eq!(host.host_name, "localhost");
}
