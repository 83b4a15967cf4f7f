use ml_server::{
    authorize, caller_address, console_command, decide_login, gateway_ends, is_login_line,
    kick_command, login_event, loopback, next_state, same_text, split_login_line, AuthorizedSet,
    ForwardedHeader, IpAddress, LoginError, LoginFields, SocketAddress, SupervisorEvent,
    SupervisorState, KICK_PREFIX, LOGIN_MARKER, STATUS_OK, STATUS_UNAUTHORIZED,
};

const EXAMPLE: &str =
    "[12:00:00] [Server thread/INFO]: Steve[/192.168.1.5:54321] logged in with entity id 5";

fn v4(a: u8, b: u8, c: u8, d: u8) -> IpAddress {
    IpAddress::V4(u32::from_be_bytes([a, b, c, d]))
}

fn event_from(line: &str, address: SocketAddress) -> ml_server::LoginEvent {
    let fields = split_login_line(line).unwrap();
    login_event(fields, Some(address)).unwrap()
}

#[test]
fn example_login_line_is_extracted() {
    assert!(is_login_line(EXAMPLE));
    let fields = split_login_line(EXAMPLE).unwrap();
    assert_eq!(fields.username, "Steve");
    assert_eq!(fields.address_text, "192.168.1.5:54321");
    let address = SocketAddress { ip: v4(192, 168, 1, 5), port: 54321 };
    let event = login_event(fields, Some(address)).unwrap();
    assert_eq!(event.username, "Steve");
    assert_eq!(event.address, address);
}

#[test]
fn login_line_without_bracket_is_malformed() {
    let line = "[12:00:00] [Server thread/INFO]: Steve logged in with entity id 5";
    assert!(is_login_line(line));
    assert_eq!(split_login_line(line).unwrap_err(), LoginError::MalformedLogLine);
    // the next line still goes through
    assert_eq!(split_login_line(EXAMPLE).unwrap().username, "Steve");
}

#[test]
fn line_with_fewer_than_three_colons_is_malformed() {
    assert_eq!(
        split_login_line("[12:00] Steve[/1.2.3.4:5] logged in").unwrap_err(),
        LoginError::MalformedLogLine
    );
    assert_eq!(split_login_line("").unwrap_err(), LoginError::MalformedLogLine);
}

#[test]
fn payload_without_slash_is_malformed() {
    let line = "[12:00:00] [Server thread/INFO]: Steve[192.168.1.5:54321] logged in";
    assert_eq!(split_login_line(line).unwrap_err(), LoginError::MalformedLogLine);
}

#[test]
fn closing_bracket_before_opening_one_is_malformed() {
    let line = "[12:00:00] [Server thread/INFO]: St]eve[/1.2.3.4:5 logged in";
    assert_eq!(split_login_line(line).unwrap_err(), LoginError::MalformedLogLine);
}

#[test]
fn missing_closing_bracket_runs_to_end_of_line() {
    let line = "a:b:c: Alex [/10.0.0.1:25565";
    let fields = split_login_line(line).unwrap();
    assert_eq!(fields.username, "Alex");
    assert_eq!(fields.address_text, "10.0.0.1:25565");
}

#[test]
fn message_keeps_colons_after_the_third() {
    let line = "a:b:c:x:y [p/q:r] logged in";
    let fields = split_login_line(line).unwrap();
    assert_eq!(fields.username, "x:y");
    assert_eq!(fields.address_text, "q:r");
}

#[test]
fn username_is_trimmed_of_unicode_white_space() {
    let line = "a:b:c:\u{3000}\t Steve\u{a0} [/1.2.3.4:5]";
    assert_eq!(split_login_line(line).unwrap().username, "Steve");
    let blank = "a:b:c:   [/1.2.3.4:5]";
    assert_eq!(split_login_line(blank).unwrap().username, "");
}

#[test]
fn unreadable_address_is_bad_address() {
    let fields = split_login_line("a:b:c: Steve[/not-an-address]").unwrap();
    assert_eq!(fields.address_text, "not-an-address");
    assert_eq!(login_event(fields, None).unwrap_err(), LoginError::BadAddress);
}

#[test]
fn extraction_is_deterministic() {
    let first = split_login_line(EXAMPLE).unwrap();
    let second = split_login_line(EXAMPLE).unwrap();
    assert_eq!(first.username, second.username);
    assert_eq!(first.address_text, second.address_text);
    let bad = "x: logged in";
    assert_eq!(split_login_line(bad).unwrap_err(), split_login_line(bad).unwrap_err());
}

#[test]
fn login_marker_detection() {
    assert_eq!(LOGIN_MARKER, "logged in");
    assert!(is_login_line("Steve logged in"));
    assert!(!is_login_line("Steve logged out"));
    assert!(!is_login_line("logged"));
    assert!(!is_login_line(""));
}

#[test]
fn commands_carry_their_line_end() {
    assert_eq!(KICK_PREFIX, "/kick ");
    assert_eq!(kick_command("Steve"), "/kick Steve\n");
    assert_eq!(console_command("say hi"), "say hi\n");
    assert_eq!(console_command(""), "\n");
}

#[test]
fn caller_address_prefers_forwarded_header() {
    let peer = v4(10, 1, 2, 3);
    let forwarded = v4(203, 0, 113, 9);
    assert_eq!(caller_address(ForwardedHeader::Absent, peer), peer);
    assert_eq!(caller_address(ForwardedHeader::Address(forwarded), peer), forwarded);
    assert_eq!(caller_address(ForwardedHeader::Unparseable, peer), v4(127, 0, 0, 1));
    assert_eq!(loopback(), v4(127, 0, 0, 1));
}

#[test]
fn correct_secret_authorizes() {
    let mut set = AuthorizedSet::new();
    let a = v4(192, 168, 1, 5);
    assert!(!set.is_authorized(a));
    assert_eq!(authorize(&mut set, "hunter2", Some("hunter2"), a), STATUS_OK);
    assert_eq!(STATUS_OK, 200);
    assert!(set.is_authorized(a));
}

#[test]
fn missing_or_wrong_secret_is_refused() {
    let mut set = AuthorizedSet::new();
    let a = v4(192, 168, 1, 5);
    assert_eq!(authorize(&mut set, "hunter2", None, a), STATUS_UNAUTHORIZED);
    assert_eq!(authorize(&mut set, "hunter2", Some("hunter3"), a), STATUS_UNAUTHORIZED);
    assert_eq!(authorize(&mut set, "hunter2", Some(""), a), STATUS_UNAUTHORIZED);
    assert_eq!(STATUS_UNAUTHORIZED, 401);
    assert!(!set.is_authorized(a));
}

#[test]
fn repeated_authorization_succeeds() {
    let mut set = AuthorizedSet::new();
    let a = IpAddress::V6(1);
    for _ in 0..3 {
        assert_eq!(authorize(&mut set, "k", Some("k"), a), STATUS_OK);
        assert!(set.is_authorized(a));
    }
}

#[test]
fn authorization_is_monotonic() {
    let mut set = AuthorizedSet::new();
    let a = v4(1, 1, 1, 1);
    let b = v4(2, 2, 2, 2);
    assert!(!set.is_authorized(a));
    set.register(a);
    assert!(set.is_authorized(a));
    assert!(!set.is_authorized(b));
    set.register(b);
    set.register(a);
    assert!(set.is_authorized(a));
    assert!(set.is_authorized(b));
}

#[test]
fn registrations_in_any_order_are_all_kept() {
    let addrs: Vec<IpAddress> = (0u32..50).map(|i| IpAddress::V4(0x0a00_0000 + i)).collect();
    let mut forward = AuthorizedSet::new();
    let mut backward = AuthorizedSet::new();
    for a in addrs.iter() {
        forward.register(*a);
    }
    for a in addrs.iter().rev() {
        backward.register(*a);
    }
    for a in addrs.iter() {
        assert!(forward.is_authorized(*a));
        assert!(backward.is_authorized(*a));
    }
    assert!(!forward.is_authorized(IpAddress::V4(0x0a00_0000 + 50)));
}

#[test]
fn v4_and_v6_addresses_differ() {
    let mut set = AuthorizedSet::new();
    set.register(IpAddress::V4(1));
    assert!(!set.is_authorized(IpAddress::V6(1)));
}

#[test]
fn authorized_login_is_not_kicked_and_unauthorized_one_is() {
    let mut set = AuthorizedSet::new();
    let x = v4(192, 168, 1, 5);
    let y = v4(192, 168, 1, 6);
    assert_eq!(authorize(&mut set, "secret", Some("secret"), x), STATUS_OK);
    let allowed = event_from(EXAMPLE, SocketAddress { ip: x, port: 54321 });
    assert_eq!(decide_login(&set, &allowed), None);
    let line = "[12:00:01] [Server thread/INFO]: Alex[/192.168.1.6:40000] logged in";
    let kicked = event_from(line, SocketAddress { ip: y, port: 40000 });
    assert_eq!(decide_login(&set, &kicked), Some("/kick Alex\n".to_string()));
}

#[test]
fn decide_login_goes_by_ip_not_port() {
    let mut set = AuthorizedSet::new();
    let x = v4(8, 8, 8, 8);
    set.register(x);
    let fields = LoginFields { username: "Steve".to_string(), address_text: String::new() };
    let event = login_event(fields, Some(SocketAddress { ip: x, port: 1 })).unwrap();
    assert_eq!(decide_login(&set, &event), None);
}

#[test]
fn same_text_compares_whole_strings() {
    assert!(same_text("abc", "abc"));
    assert!(same_text("", ""));
    assert!(!same_text("abc", "abd"));
    assert!(!same_text("abc", "ab"));
    assert!(!same_text("", "a"));
}

#[test]
fn supervisor_runs_until_the_first_stream_ends() {
    let (starting, running, exited) =
        (SupervisorState::Starting, SupervisorState::Running, SupervisorState::Exited);
    assert_eq!(next_state(starting, SupervisorEvent::Spawned), running);
    assert_eq!(next_state(starting, SupervisorEvent::SpawnFailed), exited);
    assert_eq!(next_state(running, SupervisorEvent::ProcessExited), exited);
    assert_eq!(next_state(running, SupervisorEvent::ConsoleClosed), exited);
    assert_eq!(next_state(running, SupervisorEvent::OutputClosed), exited);
    assert_eq!(next_state(running, SupervisorEvent::Spawned), running);
    assert_eq!(next_state(exited, SupervisorEvent::Spawned), exited);
}

#[test]
fn process_exit_ends_the_gateway() {
    let state = next_state(SupervisorState::Running, SupervisorEvent::ProcessExited);
    assert!(gateway_ends(false, state));
    assert!(gateway_ends(true, SupervisorState::Running));
    assert!(!gateway_ends(false, SupervisorState::Running));
}
