use nagrs::nagios::block::{Block, BlockType, ParseError};
use nagrs::nagios::fields::KeyValues;
use nagrs::nagios::object::{ConvertError, HostState};
use nagrs::nagios::{NagiosStatus, StatusError};
use regex::Regex;

const HOST_REST: &str = "
        modified_attributes=0
        check_command=check-host-alive
        check_period=24x7
        notification_period=workhours
        importance=0
        check_interval=5.000000
        retry_interval=1.000000
        event_handler=
        has_been_checked=1
        should_be_scheduled=1
        check_execution_time=4.196
        check_latency=0.368
        check_type=0
        current_state=0
        last_hard_state=0
        plugin_output=PING OK - Packet loss = 0%, RTA = 0.04 ms
        long_plugin_output=
        performance_data=rta=0.041000ms;3000.000000;5000.000000;0.000000 pl=0%;80;100;0
        last_check=1647775378
        next_check=1647775678
        check_options=0
        current_attempt=1
        max_attempts=10
        state_type=1
        last_state_change=0
        last_hard_state_change=0
        last_time_up=1647775378
        last_time_down=0
        last_time_unreachable=0
        last_notification=0
        next_notification=0
        no_more_notifications=1
        current_notification_number=0
        notifications_enabled=1
        problem_has_been_acknowledged=1
        acknowledgement_type=0
        active_checks_enabled=1
        passive_checks_enabled=1
        event_handler_enabled=1
        flap_detection_enabled=1
        process_performance_data=1
        obsess=1
        last_update=1647775437
        is_flapping=1
        percent_state_change=0.00
        scheduled_downtime_depth=0
";

const SERVICE_REST: &str = "
        modified_attributes=0
        check_period=24x7
        notification_period=24x7
        importance=0
        check_interval=5.000000
        retry_interval=1.000000
        event_handler=
        has_been_checked=1
        should_be_scheduled=1
        check_execution_time=0.003
        check_latency=0.001
        check_type=0
        current_state=0
        last_hard_state=0
        current_attempt=1
        max_attempts=4
        state_type=1
        last_state_change=0
        last_hard_state_change=0
        last_time_ok=1647775419
        last_time_warning=0
        last_time_unknown=0
        last_time_critical=0
        plugin_output=OK
        long_plugin_output=
        performance_data=
        last_check=1647775419
        next_check=1647775719
        check_options=0
        current_notification_number=0
        last_notification=0
        next_notification=0
        no_more_notifications=1
        notifications_enabled=1
        active_checks_enabled=1
        passive_checks_enabled=1
        event_handler_enabled=1
        problem_has_been_acknowledged=1
        acknowledgement_type=0
        flap_detection_enabled=1
        process_performance_data=1
        obsess=1
        last_update=1647775437
        is_flapping=1
        percent_state_change=0.00
        scheduled_downtime_depth=0
";

fn host_block(name: &str, extra: &str) -> String {
    format!("    hoststatus {{\n        host_name={}{}{}\n        }}\n", name, HOST_REST, extra)
}

fn service_block(host: &str, description: &str, command: &str) -> String {
    format!(
        "    servicestatus {{\n        host_name={}\n        service_description={}\n        \
         check_command={}{}\n        }}\n",
        host, description, command, SERVICE_REST
    )
}

fn sample() -> String {
    let mut text = String::new();
    text.push_str("# a status file\n\n    info {\n        created=123456789\n        version=9.99\n        }\n\n");
    text.push_str("    programstatus {\n        daemon_mode=1\n        nagios_pid=99999\n        }\n\n");
    text.push_str(&host_block("web01", ""));
    text.push_str(&service_block("web01", "PING", "hoge"));
    text.push_str("    contactstatus {\n        contact_name=nagiosadmin\n        modified_attributes=0\n        }\n");
    text
}

fn key_values(pairs: &[(&str, &str)]) -> KeyValues {
    let mut map = KeyValues::new();
    for (key, value) in pairs {
        map.insert(key.to_string(), value.to_string());
    }
    map
}

#[test]
fn one_block_of_each_kind() {
    let status = NagiosStatus::parse(&sample()).unwrap();

    assert_eq!(*status.get_info(), key_values(&[("created", "123456789"), ("version", "9.99")]));
    assert_eq!(*status.get_program(), key_values(&[("daemon_mode", "1"), ("nagios_pid", "99999")]));

    let host = status.get_host("web01").unwrap();
    assert_eq!(host.host_name, "web01");
    assert!(host.notifications_enabled);
    assert!(host.active_checks_enabled);
    assert!(host.passive_checks_enabled);
    assert!(host.event_handler_enabled);
    assert!(host.flap_detection_enabled);
    assert!(host.obsess);
    assert!(host.process_performance_data);

    let services = status.get_host_services("web01");
    assert_eq!(services.len(), 1);
    assert_eq!(services[0].service_description, "PING");
    assert_eq!(services[0].host_name, "web01");
    assert_eq!(services[0].check_command, "hoge");
    assert!(services[0].notifications_enabled);
    assert!(services[0].active_checks_enabled);

    assert_eq!(status.get_contacts().len(), 1);
    assert_eq!(
        status.get_contacts()[0],
        key_values(&[("contact_name", "nagiosadmin"), ("modified_attributes", "0")])
    );
}

#[test]
fn host_that_is_not_there() {
    let status = NagiosStatus::parse(&sample()).unwrap();
    assert_eq!(status.get_host("web02"), None);
    assert_eq!(status.get_host("WEB01"), None);
    assert_eq!(status.get_host(""), None);
    assert_eq!(status.get_host_services("web02").len(), 0);
}

#[test]
fn host_without_services_has_none() {
    let text = host_block("lonely", "");
    let status = NagiosStatus::parse(&text).unwrap();
    assert_eq!(status.get_host("lonely").unwrap().host_name, "lonely");
    assert_eq!(status.get_host_services("lonely").len(), 0);
}

#[test]
fn empty_text_is_an_empty_status() {
    let status = NagiosStatus::parse("").unwrap();
    assert!(status.get_info().is_empty());
    assert!(status.get_program().is_empty());
    assert_eq!(status.get_contacts().len(), 0);
    assert_eq!(status.get_host("web01"), None);
    assert_eq!(status.get_hosts_regex(&Regex::new("").unwrap()).len(), 0);
}

#[test]
fn last_info_and_program_block_win() {
    let text = "info {\na=1\nb=2\n}\nprogramstatus {\np=1\n}\ninfo {\nc=3\n}\nprogramstatus {\n}\n";
    let status = NagiosStatus::parse(text).unwrap();
    assert_eq!(*status.get_info(), key_values(&[("c", "3")]));
    assert!(status.get_program().is_empty());
}

#[test]
fn last_host_of_a_name_wins_and_keeps_its_place() {
    let mut text = String::new();
    text.push_str(&host_block("a", ""));
    text.push_str(&host_block("b", ""));
    text.push_str(&host_block("a", "\n        current_state=1"));
    let status = NagiosStatus::parse(&text).unwrap();
    assert_eq!(status.get_host("a").unwrap().current_state, HostState::Down);
    assert_eq!(status.get_host("b").unwrap().current_state, HostState::Up);
    let all = status.get_hosts_regex(&Regex::new("").unwrap());
    assert_eq!(all.len(), 2);
    assert_eq!(all[0].host_name, "a");
    assert_eq!(all[0].current_state, HostState::Down);
    assert_eq!(all[1].host_name, "b");
}

#[test]
fn services_keep_the_order_of_the_file() {
    let mut text = String::new();
    text.push_str(&service_block("a", "one", "x"));
    text.push_str(&service_block("b", "two", "x"));
    text.push_str(&service_block("a", "three", "x"));
    text.push_str(&service_block("a", "one", "y"));
    let status = NagiosStatus::parse(&text).unwrap();
    let of_a = status.get_host_services("a");
    assert_eq!(of_a.len(), 3);
    assert_eq!(of_a[0].service_description, "one");
    assert_eq!(of_a[0].check_command, "x");
    assert_eq!(of_a[1].service_description, "three");
    assert_eq!(of_a[2].service_description, "one");
    assert_eq!(of_a[2].check_command, "y");
    let of_b = status.get_host_services("b");
    assert_eq!(of_b.len(), 1);
    assert_eq!(of_b[0].service_description, "two");
    assert_eq!(status.get_host("a"), None);
}

#[test]
fn contacts_keep_the_order_of_the_file() {
    let text = "contactstatus {\ncontact_name=one\n}\ncontactstatus {\ncontact_name=two\n}\n";
    let status = NagiosStatus::parse(text).unwrap();
    assert_eq!(status.get_contacts().len(), 2);
    assert_eq!(status.get_contacts()[0].get("contact_name").unwrap(), "one");
    assert_eq!(status.get_contacts()[1].get("contact_name").unwrap(), "two");
}

#[test]
fn hosts_by_regular_expression() {
    let mut text = String::new();
    for name in ["web01", "db01", "web02", "mail", "WEB03"] {
        text.push_str(&host_block(name, ""));
    }
    let status = NagiosStatus::parse(&text).unwrap();

    let names = |pattern: &str| -> Vec<String> {
        status
            .get_hosts_regex(&Regex::new(pattern).unwrap())
            .into_iter()
            .map(|host| host.host_name)
            .collect()
    };
    assert_eq!(names("^web"), vec!["web01", "web02"]);
    assert_eq!(names("01$"), vec!["web01", "db01"]);
    assert_eq!(names("(?i)^web"), vec!["web01", "web02", "WEB03"]);
    assert_eq!(names("a"), vec!["mail"]);
    assert_eq!(names("^$"), Vec::<String>::new());
    assert_eq!(names(""), vec!["web01", "db01", "web02", "mail", "WEB03"]);
}

#[test]
fn unknown_opener_gives_no_status() {
    let text = format!("{}piyo {{\n}}\n", sample());
    assert_eq!(
        NagiosStatus::parse(&text).err(),
        Some(StatusError::Parse(ParseError::UnexpectedLine("piyo {".to_string())))
    );
}

#[test]
fn line_without_equals_sign_gives_no_status() {
    let text = "hoststatus {\n    piyo\n}\n";
    assert_eq!(
        NagiosStatus::parse(text).err(),
        Some(StatusError::Parse(ParseError::InvalidKeyValue("piyo".to_string())))
    );
}

#[test]
fn text_that_ends_inside_a_block_gives_no_status() {
    let text = format!("{}\nhoststatus {{\nhost_name=torn\n", sample());
    assert_eq!(
        NagiosStatus::parse(&text).err(),
        Some(StatusError::Parse(ParseError::UnexpectedEndOfLine))
    );
}

#[test]
fn host_block_that_is_no_host_gives_no_status() {
    let text = format!("{}hoststatus {{\nhost_name=web02\n}}\n", sample());
    assert_eq!(
        NagiosStatus::parse(&text).err(),
        Some(StatusError::Convert(ConvertError::KeyDoesNotExists(
            "modified_attributes".to_string()
        )))
    );
    let text = host_block("web01", "\n        obsess=2");
    assert_eq!(
        NagiosStatus::parse(&text).err(),
        Some(StatusError::Convert(ConvertError::InvalidBooleanValue("2".to_string())))
    );
}

#[test]
fn error_of_the_blocks_comes_before_that_of_a_record() {
    let text = "hoststatus {\nhost_name=web02\n}\ninfo {\nbroken\n}\n";
    assert_eq!(
        NagiosStatus::parse(text).err(),
        Some(StatusError::Parse(ParseError::InvalidKeyValue("broken".to_string())))
    );
}

#[test]
fn from_blocks_passes_over_unknown_blocks() {
    let mut unknown = Block::new();
    unknown.key_values.insert("a".to_string(), "b".to_string());
    let info = Block { block_type: BlockType::Info, key_values: key_values(&[("x", "y")]) };
    let status = NagiosStatus::from_blocks(vec![unknown, info]).unwrap();
    assert_eq!(*status.get_info(), key_values(&[("x", "y")]));
    assert!(status.get_program().is_empty());
}

#[test]
fn from_blocks_stops_at_the_first_record_that_is_none() {
    let first = Block { block_type: BlockType::Service, key_values: key_values(&[("host_name", "a")]) };
    let second = Block { block_type: BlockType::Host, key_values: KeyValues::new() };
    assert_eq!(
        NagiosStatus::from_blocks(vec![first, second]).err(),
        Some(ConvertError::KeyDoesNotExists("service_description".to_string()))
    );
}

#[test]
fn parsing_twice_gives_equal_answers() {
    let text = sample();
    let one = NagiosStatus::parse(&text).unwrap();
    let other = NagiosStatus::parse(&text).unwrap();
    assert_eq!(one.get_info(), other.get_info());
    assert_eq!(one.get_program(), other.get_program());
    assert_eq!(one.get_contacts(), other.get_contacts());
    assert_eq!(one.get_host("web01"), other.get_host("web01"));
    assert_eq!(one.get_host_services("web01"), other.get_host_services("web01"));
}

#[test]
fn hosts_by_their_places() {
    let mut text = String::new();
    for name in ["a", "b", "c", "d"] {
        text.push_str(&host_block(name, ""));
    }
    let status = NagiosStatus::parse(&text).unwrap();
    assert_eq!(status.host_names(), vec!["a", "b", "c", "d"]);

    let names = |keep: Vec<bool>| -> Vec<String> {
        status.get_hosts_where(&keep).into_iter().map(|host| host.host_name).collect()
    };
    assert_eq!(names(vec![true, false, true, false]), vec!["a", "c"]);
    assert_eq!(names(vec![false, false, false, true]), vec!["d"]);
    assert_eq!(names(vec![true, true, true, true]), vec!["a", "b", "c", "d"]);
    assert_eq!(names(vec![false, true]), vec!["b"]);
    assert_eq!(names(vec![]), Vec::<String>::new());
    assert_eq!(names(vec![false, false, false, false, true, true]), Vec::<String>::new());
}
