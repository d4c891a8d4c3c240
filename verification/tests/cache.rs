use nagrs::nagios::cmd::{Command, DisableHostCheck, EnableSvcCheck};
use nagrs::nagios::block::ParseError;
use nagrs::nagios::StatusError;
use nagrs::Nagrs;

const TEXT: &str = "info {\ncreated=123456789\n}\n";

#[test]
fn new_keeps_its_paths_and_no_status() {
    let nagrs = Nagrs::new("testdata/nagios.cmd", "testdata/status.dat");
    assert_eq!(*nagrs.command_file_path(), "testdata/nagios.cmd");
    assert_eq!(*nagrs.status_file_path(), "testdata/status.dat");
    assert!(nagrs.status().is_none());
    assert!(nagrs.needs_reload(0));
    assert!(nagrs.needs_reload(i64::MIN));
    assert!(nagrs.needs_reload(i64::MAX));
}

#[test]
fn parse_keeps_nothing() {
    let nagrs = Nagrs::new("cmd", "status").with_max_cache_age(60);
    let status = nagrs.parse(TEXT).unwrap();
    assert_eq!(status.get_info().get("created").unwrap(), "123456789");
    assert!(nagrs.status().is_none());
    assert!(nagrs.needs_reload(0));
}

#[test]
fn two_queries_within_the_age_read_once() {
    let mut nagrs = Nagrs::new("cmd", "status").with_max_cache_age(60);
    let mut readings = 0;
    for now in [1000, 1001, 1059] {
        if nagrs.needs_reload(now) {
            readings += 1;
            nagrs.reload(TEXT, now).unwrap();
        }
        assert_eq!(nagrs.status().unwrap().get_info().get("created").unwrap(), "123456789");
    }
    assert_eq!(readings, 1);
    if nagrs.needs_reload(1060) {
        readings += 1;
        nagrs.reload(TEXT, 1060).unwrap();
    }
    assert_eq!(readings, 2);
    assert!(!nagrs.needs_reload(1119));
    assert!(nagrs.needs_reload(1120));
}

#[test]
fn age_is_counted_from_the_last_reading() {
    let mut nagrs = Nagrs::new("cmd", "status").with_max_cache_age(10);
    nagrs.reload(TEXT, 100).unwrap();
    assert!(!nagrs.needs_reload(99));
    assert!(!nagrs.needs_reload(109));
    assert!(nagrs.needs_reload(110));
    nagrs.reload(TEXT, 105).unwrap();
    assert!(!nagrs.needs_reload(110));
    assert!(nagrs.needs_reload(115));
}

#[test]
fn without_an_age_every_query_reads() {
    let mut nagrs = Nagrs::new("cmd", "status");
    nagrs.reload(TEXT, 100).unwrap();
    assert!(nagrs.needs_reload(100));
    assert!(nagrs.needs_reload(101));
    assert!(!nagrs.needs_reload(99));
}

#[test]
fn far_apart_times_do_not_overflow() {
    let mut nagrs = Nagrs::new("cmd", "status").with_max_cache_age(u64::MAX);
    nagrs.reload(TEXT, i64::MIN).unwrap();
    assert!(!nagrs.needs_reload(i64::MAX - 1));
    assert!(nagrs.needs_reload(i64::MAX));
    let mut nagrs = Nagrs::new("cmd", "status").with_max_cache_age(1);
    nagrs.reload(TEXT, i64::MAX).unwrap();
    assert!(!nagrs.needs_reload(i64::MIN));
    nagrs.reload(TEXT, i64::MIN).unwrap();
    assert!(nagrs.needs_reload(i64::MAX));
}

#[test]
fn written_commands_force_the_next_query_to_read() {
    let mut nagrs = Nagrs::new("cmd", "status").with_max_cache_age(60);
    nagrs.reload(TEXT, 1000).unwrap();
    assert!(!nagrs.needs_reload(1001));
    let cmds = vec![Command::DisableHostCheck(DisableHostCheck::new("web01".into()))];
    let lines = nagrs.write_cmds_at(&cmds, 1001);
    assert_eq!(lines, "[1001] DISABLE_HOST_CHECK;web01\n");
    assert!(!nagrs.needs_reload(1001));
    nagrs.invalidate();
    assert!(nagrs.status().is_none());
    assert!(nagrs.needs_reload(1001));
    assert!(nagrs.needs_reload(1000));
    nagrs.reload(TEXT, 1002).unwrap();
    assert!(!nagrs.needs_reload(1003));
}

#[test]
fn failed_reading_keeps_what_was_kept() {
    let mut nagrs = Nagrs::new("cmd", "status").with_max_cache_age(60);
    nagrs.reload(TEXT, 1000).unwrap();
    assert_eq!(
        nagrs.reload("info {\ncreated=5\n", 2000),
        Err(StatusError::Parse(ParseError::UnexpectedEndOfLine))
    );
    assert_eq!(nagrs.status().unwrap().get_info().get("created").unwrap(), "123456789");
    assert!(!nagrs.needs_reload(1059));
    assert!(nagrs.needs_reload(2000));

    let mut empty = Nagrs::new("cmd", "status").with_max_cache_age(60);
    assert!(empty.reload("piyo {", 1).is_err());
    assert!(empty.status().is_none());
    assert!(empty.needs_reload(1));
}

#[test]
fn write_cmds_bear_the_time_of_the_clock() {
    let nagrs = Nagrs::new("cmd", "status");
    let cmds = vec![
        Command::DisableHostCheck(DisableHostCheck::new("a".into())),
        Command::EnableSvcCheck(EnableSvcCheck::new("a".into(), "b".into())),
    ];
    let before = chrono::Utc::now().timestamp();
    let lines = nagrs.write_cmds(&cmds);
    let after = chrono::Utc::now().timestamp();
    assert!((before..=after).any(|timestamp| lines == nagrs.write_cmds_at(&cmds, timestamp)));
}

#[test]
fn write_cmds_of_several_commands() {
    let nagrs = Nagrs::new("cmd", "status");
    let cmds = vec![
        Command::DisableHostCheck(DisableHostCheck::new("a".into())),
        Command::EnableSvcCheck(EnableSvcCheck::new("a".into(), "b".into())),
    ];
    assert_eq!(
        nagrs.write_cmds_at(&cmds, 1647824400),
        "[1647824400] DISABLE_HOST_CHECK;a\n[1647824400] ENABLE_SVC_CHECK;a;b\n"
    );
    assert_eq!(nagrs.write_cmds_at(&Vec::<Command>::new(), 1), "");
    assert_eq!(nagrs.write_cmds(&Vec::<Command>::new()), "");
}
