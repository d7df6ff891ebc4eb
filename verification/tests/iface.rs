use cloud::iface::{first_capture, first_usable, IfaceError};

#[test]
fn iface() {
    let out = r"1: lo    inet 127.0.0.1/8 scope host lo\       valid_lft forever preferred_lft forever
2: em1    inet 18.26.5.2/23 brd 18.26.5.255 scope global em1\       valid_lft forever preferred_lft forever".to_string();
    assert_eq!(cloud::iface_name(out).unwrap(), "em1");
}

#[test]
fn iface_name() {
    let out = r"1: lo    inet 127.0.0.1/8 scope host lo\       valid_lft forever preferred_lft forever
2: em1    inet 18.26.5.2/23 brd 18.26.5.255 scope global em1\       valid_lft forever preferred_lft forever".to_string();
    assert_eq!(cloud::iface_name(out).unwrap(), "em1");
}

#[test]
fn iface_name_without_interface_is_an_error() {
    assert_eq!(cloud::iface_name(String::new()), Err(IfaceError::NoMatch));
    let only_loopback = "1: lo    inet 127.0.0.1/8 scope host lo\n".to_string();
    assert_eq!(cloud::iface_name(only_loopback), Err(IfaceError::NoMatch));
}

#[test]
fn iface_name_takes_the_first_matching_line() {
    let out = "1: lo    inet 127.0.0.1/8\n3: ens5    inet 10.0.0.7/24\n2: em1    inet 18.26.5.2/23\n"
        .to_string();
    assert_eq!(cloud::iface_name(out).unwrap(), "ens5");
}

#[test]
fn iface_name_does_not_match_across_lines() {
    let out = "2:\nem1\ninet 18.26.5.2/23\n".to_string();
    assert_eq!(cloud::iface_name(out), Err(IfaceError::NoMatch));
}

#[test]
fn iface_name_returns_the_capture_not_the_line() {
    let out = "17: eth0    inet 192.168.1.5/24 brd 192.168.1.255 scope global eth0".to_string();
    assert_eq!(cloud::iface_name(out).unwrap(), "eth0");
}

#[test]
fn first_usable_skips_loopback_and_gaps() {
    let captures = vec![None, Some("lo".to_string()), Some("em1".to_string()), Some("em2".to_string())];
    assert_eq!(first_usable(&captures).unwrap(), "em1");
    let none: Vec<Option<String>> = vec![None, Some("lo".to_string())];
    assert_eq!(first_usable(&none), Err(IfaceError::NoMatch));
    assert_eq!(first_usable(&Vec::new()), Err(IfaceError::NoMatch));
}

#[test]
fn rejected_pattern_is_an_error_when_there_is_a_line() {
    assert_eq!(first_capture("(", "2: em1    inet 18.26.5.2/23"), Err(IfaceError::Pattern));
    assert_eq!(first_capture("(", ""), Err(IfaceError::NoMatch));
    assert_eq!(first_capture("x", "2: em1    inet 18.26.5.2/23"), Err(IfaceError::NoMatch));
}

#[test]
fn first_capture_gives_group_one() {
    assert_eq!(first_capture("([a-z]+)=([0-9]+)", "\n--\nspeed=100\nmtu=1500\n").unwrap(), "speed");
    assert_eq!(first_capture("^(lo|eth[0-9])$", "lo\neth0\neth1").unwrap(), "eth0");
    assert_eq!(first_capture("a(b)?c", "ac\nabc").unwrap(), "b");
}
