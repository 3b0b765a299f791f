use p2phandshake::cli::Cli;
use p2phandshake::errors::CustomError;
use p2phandshake::node::{format_address, parse_node_record, Node};
use p2phandshake::text::{digit_of, find_only, parse_port, push_decimal, to_chars};

fn chars(text: &str) -> Vec<char> {
    text.chars().collect()
}

#[test]
fn parse_then_format_gives_back_the_address_part() {
    for record in [
        "abc@example.org:8080",
        "node_id@127.0.0.1:30303",
        "@h:1",
        "x@y:65535",
        "enode://6f8a80d14311c39f35f516fa664deaaaa13e85b2f7493f37f6144d86991ec012937307647bd3b9a82abe2974e1407241d54947bbb39763a4cac9f77166ad92a0@10.3.58.6:30303",
    ] {
        let (addr, port) = parse_node_record(record).unwrap();
        let address_part = record.split('@').nth(1).unwrap();
        assert_eq!(format_address(addr, port), address_part);
    }
}

#[test]
fn a_node_is_made_of_its_parts_and_keeps_the_key_it_was_given() {
    let key = secp256k1::SecretKey::from_slice(&[0xcd; 32]).unwrap();
    let node = Node::from_parts("example.org", 30303, key);
    assert_eq!((node.get_addr(), node.get_port()), ("example.org", 30303));
    assert_eq!(node.get_secret_key().secret_bytes(), [0xcd; 32]);
    assert_eq!(node.address(), "example.org:30303");

    let node = Node::with_secret_key("id@10.0.0.1:9", key).unwrap();
    assert_eq!((node.get_addr(), node.get_port()), ("10.0.0.1", 9));
    assert_eq!(*node.get_secret_key(), key);
    assert!(matches!(Node::with_secret_key("id@10.0.0.1:0", key), Err(CustomError::AddressPortParse)));
    assert!(matches!(Node::with_secret_key("id@:9", key), Err(CustomError::AddressPortParse)));
}

#[test]
fn format_then_parse_gives_back_host_and_port() {
    for (host, port) in [("localhost", 1u16), ("10.0.0.1", 9), ("h", 10), ("h", 65535), ("é", 443)] {
        let record = format!("id@{}", format_address(host, port));
        assert_eq!(parse_node_record(&record).unwrap(), (host, port));
    }
}

#[test]
fn a_port_with_sign_or_leading_zeros_is_read_but_not_written_back() {
    assert_eq!(parse_node_record("id@h:+80").unwrap(), ("h", 80));
    assert_eq!(parse_node_record("id@h:0080").unwrap(), ("h", 80));
    assert_eq!(parse_node_record("id@h:+001").unwrap(), ("h", 1));
    assert_eq!(format_address("h", 80), "h:80");
}

#[test]
fn records_without_exactly_one_at_sign_are_refused() {
    for record in ["", "h:80", "a@b@h:80", "@@", "id@h:80@", "node_id127.0.0.1:30303"] {
        assert_eq!(parse_node_record(record), Err(CustomError::AddressPortParse), "{record:?}");
    }
}

#[test]
fn addresses_without_exactly_one_colon_are_refused() {
    for record in ["id@h", "id@", "id@h:80:90", "id@::", "id@[::1]:30303", "a:b@h80"] {
        assert_eq!(parse_node_record(record), Err(CustomError::AddressPortParse), "{record:?}");
    }
}

#[test]
fn ports_that_are_no_sixteen_bit_numbers_are_refused() {
    for record in [
        "id@h:", "id@h:+", "id@h:-1", "id@h:-0", "id@h:++1", "id@h:65536", "id@h:99999999999999999999",
        "id@h: 80", "id@h:80 ", "id@h:8_0", "id@h:0x50", "id@h:notaport", "id@h:８０", "id@h:6553a",
        "id@h:655360x",
    ] {
        assert_eq!(parse_node_record(record), Err(CustomError::AddressPortParse), "{record:?}");
    }
}

#[test]
fn the_largest_and_smallest_ports_are_read() {
    assert_eq!(parse_node_record("id@h:65535").unwrap(), ("h", 65535));
    assert_eq!(parse_node_record("id@h:1").unwrap(), ("h", 1));
    assert_eq!(parse_node_record("id@h:000065535").unwrap(), ("h", 65535));
}

#[test]
fn a_zero_port_is_refused() {
    for record in ["id@host:0", "id@host:+0", "id@host:000", "@h:0"] {
        assert_eq!(parse_node_record(record), Err(CustomError::AddressPortParse), "{record:?}");
        assert!(matches!(Node::new(record), Err(CustomError::AddressPortParse)));
    }
}

#[test]
fn an_empty_host_is_refused() {
    for record in ["id@:30303", "@:7", "x@:65535", "id@:"] {
        assert_eq!(parse_node_record(record), Err(CustomError::AddressPortParse), "{record:?}");
        assert!(matches!(Node::new(record), Err(CustomError::AddressPortParse)));
    }
    let cli = Cli { node_record: "id@:30303".to_string() };
    assert!(matches!(cli.node(), Err(CustomError::AddressPortParse)));
}

#[test]
fn hosts_and_identifiers_may_hold_any_other_characters() {
    assert_eq!(parse_node_record("é:è@hôte.example:1").unwrap(), ("hôte.example", 1));
    assert_eq!(parse_node_record("@h:7").unwrap(), ("h", 7));
    assert_eq!(parse_node_record("a:b:c@日本:22").unwrap(), ("日本", 22));
}

#[test]
fn parsing_agrees_with_splitting_and_the_standard_integer_parser_on_usable_peers() {
    let pieces = ["", "a", "@", ":", "+", "-", "0", "7", "65535", "65536", "h", "é"];
    for a in pieces {
        for b in pieces {
            for c in pieces {
                for d in pieces {
                    let record = format!("{a}{b}{c}{d}");
                    let parts: Vec<&str> = record.split('@').collect();
                    let expected = if parts.len() != 2 {
                        None
                    } else {
                        let address: Vec<&str> = parts[1].split(':').collect();
                        if address.len() != 2 {
                            None
                        } else {
                            address[1]
                                .parse::<u16>()
                                .ok()
                                .filter(|port| *port != 0 && !address[0].is_empty())
                                .map(|port| (address[0], port))
                        }
                    };
                    assert_eq!(parse_node_record(&record).ok(), expected, "{record:?}");
                }
            }
        }
    }
}

#[test]
fn the_method_and_the_function_agree() {
    for record in ["node_id@127.0.0.1:30303", "bad", "a@b:c"] {
        assert_eq!(Node::parse_node_record(record), parse_node_record(record));
    }
}

#[test]
fn a_node_remembers_host_and_port_and_writes_its_address() {
    let node = Node::new("id@example.org:8080").unwrap();
    assert_eq!(node.get_addr(), "example.org");
    assert_eq!(node.get_port(), 8080);
    assert_eq!(node.address(), "example.org:8080");
}

#[test]
fn a_node_is_refused_with_its_record() {
    assert!(matches!(Node::new("no-at-sign:1"), Err(CustomError::AddressPortParse)));
    assert!(matches!(Node::new("id@h:70000"), Err(CustomError::AddressPortParse)));
}

#[test]
fn every_node_draws_its_own_secret_key() {
    let first = Node::new("id@h:1").unwrap();
    let second = Node::new("id@h:1").unwrap();
    assert_ne!(first.get_secret_key().secret_bytes(), second.get_secret_key().secret_bytes());
    assert_ne!(first.get_secret_key().secret_bytes(), [0u8; 32]);
}

#[test]
fn the_command_line_names_a_node() {
    let cli = Cli { node_record: "id@10.1.2.3:30303".to_string() };
    let node = cli.node().unwrap();
    assert_eq!((node.get_addr(), node.get_port()), ("10.1.2.3", 30303));
    let cli = Cli { node_record: "id@10.1.2.3".to_string() };
    assert!(matches!(cli.node(), Err(CustomError::AddressPortParse)));
}

#[test]
fn find_only_finds_a_mark_that_stands_once() {
    assert_eq!(find_only(&chars("a@b"), '@'), Some(1));
    assert_eq!(find_only(&chars("@"), '@'), Some(0));
    assert_eq!(find_only(&chars("ab@"), '@'), Some(2));
    assert_eq!(find_only(&chars(""), '@'), None);
    assert_eq!(find_only(&chars("abc"), '@'), None);
    assert_eq!(find_only(&chars("@@"), '@'), None);
    assert_eq!(find_only(&chars("a@b@c@"), '@'), None);
}

#[test]
fn to_chars_keeps_every_character() {
    assert_eq!(to_chars(""), Vec::<char>::new());
    assert_eq!(to_chars("a@é:日"), vec!['a', '@', 'é', ':', '日']);
}

#[test]
fn digits_have_their_values() {
    for (i, c) in "0123456789".chars().enumerate() {
        assert_eq!(digit_of(c), Some(i as u8));
    }
    for c in ['/', ':', 'a', '+', ' ', '٣', '０'] {
        assert_eq!(digit_of(c), None);
    }
}

#[test]
fn parse_port_reads_what_the_standard_parser_reads() {
    for text in [
        "", "+", "0", "+0", "00", "1", "9", "10", "99", "100", "30303", "65535", "+65535", "065535",
        "65536", "65540", "70000", "100000", "4294967296", "-1", "1-", "1+", "+-1", "a", "1a", "a1",
        " 1", "1 ", "١",
    ] {
        assert_eq!(parse_port(&chars(text)), text.parse::<u16>().ok(), "{text:?}");
    }
}

#[test]
fn parse_port_agrees_with_the_standard_parser_on_every_port() {
    for port in 0..=u16::MAX {
        let text = port.to_string();
        assert_eq!(parse_port(&chars(&text)), Some(port));
    }
    for beyond in 65536u32..66000 {
        assert_eq!(parse_port(&chars(&beyond.to_string())), None);
    }
}

#[test]
fn push_decimal_writes_every_port_as_the_standard_formatter_does() {
    for port in 0..=u16::MAX {
        let mut out = String::from("p=");
        push_decimal(&mut out, port);
        assert_eq!(out, format!("p={port}"));
    }
}
