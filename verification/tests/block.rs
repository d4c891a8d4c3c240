use nagrs::nagios::block::{select_block_type, Block, BlockType, ParseError};
use nagrs::nagios::fields::KeyValues;

fn key_values(pairs: &[(&str, &str)]) -> KeyValues {
    let mut map = KeyValues::new();
    for (key, value) in pairs {
        map.insert(key.to_string(), value.to_string());
    }
    map
}

#[test]
fn test_to_blocks() {
    let status_text = r#"
        info {
            created=123456789
            version=9.99
        }
    
        programstatus {
            daemon_mode=1
            nagios_pid=99999
        }
    
        hoststatus {
            host_name=web01
            notifications_enabled=1
            active_checks_enabled=1
            passive_checks_enabled=1
            obsess=1
            event_handler_enabled=1
            flap_detection_enabled=1
        }
    
        servicestatus {
            host_name=web01
            service_description=PING
            notifications_enabled=1
            active_checks_enabled=1
            passive_checks_enabled=1
            check_command=hoge
            obsess=1
            event_handler_enabled=1
            flap_detection_enabled=1
    
        }
    
        contactstatus {
            contact_name=nagiosadmin
            modified_attributes=0
            }
        
        "#;

    let blocks = Block::to_blocks(status_text);
    assert_eq!(blocks.len(), 5)
}

#[test]
fn test_to_blocks_error() {
    let status_text = r#"
        info {
            created=123456789
            version=9.99
        }
    
        programstatus {
            daemon_mode=1
            nagios_pid=99999
        }
    
        hoststatus {
            host_name=web01
            notifications_enabled=1
            active_checks_enabled=1
            passive_checks_enabled=1
            obsess=1
            event_handler_enabled=1
            flap_detection_enabled=1
        "#;

    let blocks = Block::to_blocks(status_text);
    let blocks = blocks.into_iter().collect::<Result<Vec<_>, _>>();
    assert_eq!(blocks.is_err(), true);
}

#[test]
fn test_to_blocks_error_unexpected_line() {
    let status_text = r#"
        unexpected_block {
            created=123456789
            version=9.99
        }
        "#;

    let blocks = Block::to_blocks(status_text);
    let blocks = blocks.into_iter().collect::<Result<Vec<_>, _>>();
    assert_eq!(blocks.is_err(), true);
    assert_eq!(
        blocks.unwrap_err(),
        ParseError::UnexpectedLine("unexpected_block {".to_string())
    );
}

#[test]
fn test_to_blocks_error_invalid_key_value() {
    let status_text = r#"
        hoststatus {
            created=123456789
            version=9.99
            error_line
        }
        "#;

    let blocks = Block::to_blocks(status_text);
    let blocks = blocks.into_iter().collect::<Result<Vec<_>, _>>();
    assert_eq!(blocks.is_err(), true);
    assert_eq!(
        blocks.unwrap_err(),
        ParseError::InvalidKeyValue("error_line".to_string())
    );
}

#[test]
fn test_to_blocks_unexpexted_end_of_line() {
    let status_text = r#"
        hoststatus {
            created=123456789
            version=9.99
        "#;

    let blocks = Block::to_blocks(status_text);
    let blocks = blocks.into_iter().collect::<Result<Vec<_>, _>>();
    assert_eq!(blocks.is_err(), true);
    assert_eq!(blocks.unwrap_err(), ParseError::UnexpectedEndOfLine);
}

const STATUS_DAT: &str = r#"
    info {
        created=123456789
        version=9.99
    }

    programstatus {
        daemon_mode=1
        nagios_pid=99999
    }

    hoststatus {
        host_name=web01
        notifications_enabled=1
        active_checks_enabled=1
        passive_checks_enabled=1
        obsess=1
        event_handler_enabled=1
        flap_detection_enabled=1
    }

    servicestatus {
        host_name=web01
        service_description=PING
        notifications_enabled=1
        active_checks_enabled=1
        passive_checks_enabled=1
        check_command=hoge
        obsess=1
        event_handler_enabled=1
        flap_detection_enabled=1

    }

    contactstatus {
        contact_name=nagiosadmin
        modified_attributes=0
        }
    
    "#;

#[test]
fn parse() {
    let blocks = Block::parse(STATUS_DAT).unwrap();

    // info
    let expected = key_values(&[("created", "123456789"), ("version", "9.99")]);
    let block = blocks.get(0).unwrap();
    assert_eq!(block.block_type, BlockType::Info);
    assert_eq!(block.key_values, expected);

    // program
    let expected = key_values(&[("daemon_mode", "1"), ("nagios_pid", "99999")]);
    let block = blocks.get(1).unwrap();
    assert_eq!(block.block_type, BlockType::Program);
    assert_eq!(block.key_values, expected);

    // host
    let expected = key_values(&[
        ("host_name", "web01"),
        ("notifications_enabled", "1"),
        ("active_checks_enabled", "1"),
        ("passive_checks_enabled", "1"),
        ("obsess", "1"),
        ("event_handler_enabled", "1"),
        ("flap_detection_enabled", "1"),
    ]);
    let block = blocks.get(2).unwrap();
    assert_eq!(block.block_type, BlockType::Host);
    assert_eq!(block.key_values, expected);

    // services
    let expected = key_values(&[
        ("host_name", "web01"),
        ("service_description", "PING"),
        ("notifications_enabled", "1"),
        ("active_checks_enabled", "1"),
        ("passive_checks_enabled", "1"),
        ("check_command", "hoge"),
        ("obsess", "1"),
        ("event_handler_enabled", "1"),
        ("flap_detection_enabled", "1"),
    ]);
    let block = blocks.get(3).unwrap();
    assert_eq!(block.block_type, BlockType::Service);
    assert_eq!(block.key_values, expected);

    // contacts
    let expected = key_values(&[("contact_name", "nagiosadmin"), ("modified_attributes", "0")]);
    let block = blocks.get(4).unwrap();
    assert_eq!(block.block_type, BlockType::Contact);
    assert_eq!(block.key_values, expected);
}

#[test]
fn to_blocks_of_empty_text_is_empty() {
    assert_eq!(Block::to_blocks("").len(), 0);
    assert_eq!(Block::to_blocks("\n\n   \n\t\n").len(), 0);
    assert_eq!(Block::parse("").unwrap().len(), 0);
}

#[test]
fn comments_and_blank_lines_are_passed_over() {
    let text = "# a comment\n\n   # another, indented\ninfo {\n# inside\n\n  a=b  \n}\n#last";
    let blocks = Block::parse(text).unwrap();
    assert_eq!(blocks.len(), 1);
    assert_eq!(blocks[0].block_type, BlockType::Info);
    assert_eq!(blocks[0].key_values, key_values(&[("a", "b")]));
}

#[test]
fn white_space_of_every_kind_is_trimmed() {
    let text = "\u{3000}\tinfo {\u{a0}\r\n\u{2003}a=b\u{85}\r\n\u{1680}}\u{205f}\r\n";
    let blocks = Block::parse(text).unwrap();
    assert_eq!(blocks.len(), 1);
    assert_eq!(blocks[0].key_values, key_values(&[("a", "b")]));
}

#[test]
fn white_space_inside_a_line_is_kept() {
    let blocks = Block::parse("info {\n  key = some value \n}").unwrap();
    assert_eq!(blocks[0].key_values, key_values(&[("key ", " some value")]));
}

#[test]
fn value_is_split_at_the_first_equals_sign() {
    let blocks = Block::parse("servicestatus {\ncheck_command=check!a=b=c\nempty=\n=x\n}").unwrap();
    assert_eq!(
        blocks[0].key_values,
        key_values(&[("check_command", "check!a=b=c"), ("empty", ""), ("", "x")])
    );
}

#[test]
fn last_value_of_a_key_wins() {
    let blocks = Block::parse("info {\na=1\nb=2\na=3\n}").unwrap();
    assert_eq!(blocks[0].key_values, key_values(&[("a", "3"), ("b", "2")]));
    assert_eq!(blocks[0].key_values.len(), 2);
    assert_eq!(blocks[0].key_values.get("a").unwrap(), "3");
}

#[test]
fn opener_must_match_exactly() {
    assert_eq!(select_block_type("info {"), Ok(BlockType::Info));
    assert_eq!(select_block_type("programstatus {"), Ok(BlockType::Program));
    assert_eq!(select_block_type("hoststatus {"), Ok(BlockType::Host));
    assert_eq!(select_block_type("servicestatus {"), Ok(BlockType::Service));
    assert_eq!(select_block_type("contactstatus {"), Ok(BlockType::Contact));
    for line in ["info{", "info  {", "Info {", "info { ", "hoststatus", "}", "a=b", ""] {
        assert_eq!(
            select_block_type(line),
            Err(ParseError::UnexpectedLine(line.to_string()))
        );
    }
}

#[test]
fn unknown_opener_is_an_unexpected_line() {
    let items = Block::to_blocks("piyo {\n}\n");
    assert_eq!(items.len(), 1);
    assert_eq!(items[0], Err(ParseError::UnexpectedLine("piyo {".to_string())));
    assert_eq!(
        Block::parse("piyo {\n}\n").unwrap_err(),
        ParseError::UnexpectedLine("piyo {".to_string())
    );
}

#[test]
fn line_without_equals_sign_is_an_invalid_key_value() {
    let items = Block::to_blocks("hoststatus {\n    piyo\n}\n");
    assert_eq!(items.len(), 1);
    assert_eq!(items[0], Err(ParseError::InvalidKeyValue("piyo".to_string())));
}

#[test]
fn blocks_before_an_error_are_kept_and_nothing_after_it() {
    let text = "info {\na=b\n}\nhoststatus {\nbroken\n}\ninfo {\n}\n";
    let items = Block::to_blocks(text);
    assert_eq!(items.len(), 2);
    assert_eq!(
        items[0],
        Ok(Block { block_type: BlockType::Info, key_values: key_values(&[("a", "b")]) })
    );
    assert_eq!(items[1], Err(ParseError::InvalidKeyValue("broken".to_string())));
    assert_eq!(Block::parse(text).unwrap_err(), ParseError::InvalidKeyValue("broken".to_string()));
}

#[test]
fn open_block_without_fields_at_the_end_is_an_error() {
    let items = Block::to_blocks("info {\n}\nhoststatus {\n");
    assert_eq!(items.len(), 2);
    assert_eq!(items[1], Err(ParseError::UnexpectedEndOfLine));
}

#[test]
fn opener_inside_a_block_is_no_field() {
    assert_eq!(
        Block::parse("info {\nhoststatus {\n}\n").unwrap_err(),
        ParseError::InvalidKeyValue("hoststatus {".to_string())
    );
}

#[test]
fn closing_line_outside_a_block_is_unexpected() {
    assert_eq!(Block::parse("}\n").unwrap_err(), ParseError::UnexpectedLine("}".to_string()));
}

#[test]
fn new_block_is_unknown_and_empty() {
    let block = Block::new();
    assert_eq!(block.block_type, BlockType::Unknown);
    assert!(block.key_values.is_empty());
}

#[test]
fn reading_twice_gives_equal_blocks() {
    assert_eq!(Block::to_blocks(STATUS_DAT), Block::to_blocks(STATUS_DAT));
    let broken = "info {\na=b\n}\nhoststatus {\n";
    assert_eq!(Block::to_blocks(broken), Block::to_blocks(broken));
}
