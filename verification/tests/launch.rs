use distant_nvim::{
    find_session_descriptor, pick_first, Failure, Fault, Handshake, IdAllocator, Launch,
    LaunchAction, LaunchEvent, LaunchOpts, Method, Phase, Registry, Session, SessionDescriptor,
};

const KEY_HEX: &str = "000102030405060708090a0b0c0d0e0f101112131415161718191a1b1c1d1e1f";

fn key_bytes() -> [u8; 32] {
    let mut key = [0u8; 32];
    for (i, byte) in key.iter_mut().enumerate() {
        *byte = i as u8;
    }
    key
}

fn descriptor_line(host: &str, port: u16) -> String {
    format!("DISTANT CONNECT {} {} {}", host, port, KEY_HEX)
}

fn start(method: Method, timeout: u64) -> Launch {
    let mut opts = LaunchOpts::new(String::from("example.com"), ());
    opts.method = method;
    opts.timeout = timeout;
    Session::launch(opts).launch
}

fn authenticated(method: Method, timeout: u64) -> (Launch, LaunchAction) {
    let (launch, action) = start(method, timeout).step(LaunchEvent::Connected);
    assert_eq!(action, LaunchAction::Authenticate);
    assert_eq!(launch.phase(), &Phase::Authenticating);
    launch.step(LaunchEvent::Authenticated)
}

fn reconnecting(timeout: u64) -> Launch {
    let (launch, _) = authenticated(Method::Distant, timeout);
    let (launch, _) = launch.step(LaunchEvent::AgentExited {
        success: true,
        code: Some(0),
        output: descriptor_line("10.0.0.1", 4000),
    });
    assert_eq!(launch.phase(), &Phase::Reconnecting);
    launch
}

#[test]
fn descriptor_is_read_from_a_single_line() {
    let found = find_session_descriptor(&descriptor_line("127.0.0.1", 8080));
    assert_eq!(
        found,
        Some(SessionDescriptor { host: String::from("127.0.0.1"), port: 8080, key: key_bytes() })
    );
}

#[test]
fn descriptor_is_found_among_other_lines() {
    let output = format!("starting up\r\n\n{}\nbye\n", descriptor_line("host.example", 22));
    let found = find_session_descriptor(&output).unwrap();
    assert_eq!(found.host, "host.example");
    assert_eq!(found.port, 22);
    assert_eq!(found.key, key_bytes());
}

#[test]
fn first_of_several_descriptors_wins() {
    let output = format!("{}\n{}\n", descriptor_line("first", 1), descriptor_line("second", 2));
    let found = find_session_descriptor(&output).unwrap();
    assert_eq!(found.host, "first");
    assert_eq!(found.port, 1);
}

#[test]
fn malformed_descriptor_lines_are_passed_over() {
    let output = format!(
        "DISTANT CONNECT host notaport {}\nDISTANT CONNECT host 80 abcd\nDISTANT DATA host 80 {}\n{}\n",
        KEY_HEX,
        KEY_HEX,
        descriptor_line("good", 9)
    );
    let found = find_session_descriptor(&output).unwrap();
    assert_eq!(found.host, "good");
    assert_eq!(found.port, 9);
}

#[test]
fn output_without_descriptor_yields_none() {
    assert_eq!(find_session_descriptor(""), None);
    assert_eq!(find_session_descriptor("hello\nworld\n"), None);
    assert_eq!(find_session_descriptor("DISTANT CONNECT localhost\n"), None);
}

#[test]
fn descriptor_split_over_two_lines_is_not_one() {
    let output = format!("DISTANT CONNECT host 80\n{}\n", KEY_HEX);
    assert_eq!(find_session_descriptor(&output), None);
}

#[test]
fn pick_first_takes_the_first_present_item() {
    assert_eq!(pick_first(vec![None, Some(2), Some(3)]), Some(2));
    assert_eq!(pick_first(vec![Some(1), None]), Some(1));
    assert_eq!(pick_first(vec![None, None, Some(9)]), Some(9));
    assert_eq!(pick_first::<u8>(vec![None, None]), None);
    assert_eq!(pick_first::<u8>(Vec::new()), None);
}

#[test]
fn launch_starts_out_connecting() {
    let mut opts = LaunchOpts::new(String::from("example.com"), 17u8);
    opts.ssh.port = Some(2222);
    opts.ssh.user = Some(String::from("me"));
    let opening = Session::launch(opts);
    assert_eq!(opening.launch.phase(), &Phase::Connecting);
    assert_eq!(opening.launch.method(), Method::Distant);
    assert_eq!(opening.launch.timeout(), 15000);
    assert_eq!(opening.launch.failure(), None);
    assert_eq!(opening.host, "example.com");
    assert_eq!(opening.handler, 17);
    assert_eq!(opening.ssh.port, Some(2222));
    assert_eq!(opening.ssh.user, Some(String::from("me")));
}

#[test]
fn ssh_launch_is_ready_once_authenticated() {
    let (launch, action) = authenticated(Method::Ssh, 15000);
    assert_eq!(launch.phase(), &Phase::Ready);
    assert_eq!(action, LaunchAction::Register { method: Method::Ssh });
}

#[test]
fn distant_launch_spawns_the_agent_once_authenticated() {
    let (launch, action) = authenticated(Method::Distant, 15000);
    assert_eq!(launch.phase(), &Phase::AwaitingAgent);
    assert_eq!(action, LaunchAction::SpawnAgent { program: String::from("distant") });
}

#[test]
fn distant_launch_reconnects_to_the_described_agent() {
    let (launch, _) = authenticated(Method::Distant, 2500);
    let (launch, action) = launch.step(LaunchEvent::AgentExited {
        success: true,
        code: Some(0),
        output: format!("banner\n{}\n", descriptor_line("10.0.0.1", 4000)),
    });
    assert_eq!(launch.phase(), &Phase::Reconnecting);
    assert_eq!(
        action,
        LaunchAction::Reconnect {
            descriptor: SessionDescriptor {
                host: String::from("10.0.0.1"),
                port: 4000,
                key: key_bytes()
            },
            timeout: 2500,
        }
    );
    let (launch, action) = launch.step(LaunchEvent::Reconnected);
    assert_eq!(launch.phase(), &Phase::Ready);
    assert_eq!(action, LaunchAction::Register { method: Method::Distant });
}

#[test]
fn connection_failure_ends_the_launch() {
    let (launch, action) =
        start(Method::Distant, 15000).step(LaunchEvent::ConnectFailed(String::from("refused")));
    assert_eq!(launch.failure(), Some(&Failure::ConnectionError(String::from("refused"))));
    assert_eq!(action, LaunchAction::Abandon { release_bootstrap: false });
}

#[test]
fn rejected_host_fails_with_auth_error_and_registers_nothing() {
    let mut sessions: Registry<&str> = Registry::new();
    let mut ids = IdAllocator::with_seed(1);
    sessions.insert(&mut ids, "earlier").unwrap();
    let (launch, _) = start(Method::Ssh, 15000).step(LaunchEvent::Connected);
    let (launch, action) = launch.step(LaunchEvent::AuthFailed(String::from("host rejected")));
    assert_eq!(launch.phase(), &Phase::Failed(Failure::AuthError(String::from("host rejected"))));
    assert_eq!(action, LaunchAction::Abandon { release_bootstrap: false });
    let registered = launch.register(&mut sessions, &mut ids, "never");
    assert_eq!(registered, Err(Failure::AuthError(String::from("host rejected"))));
    assert_eq!(sessions.len(), 1);
}

#[test]
fn agent_without_descriptor_fails_with_missing_session_data() {
    let (launch, _) = authenticated(Method::Distant, 15000);
    let (launch, action) = launch.step(LaunchEvent::AgentExited {
        success: true,
        code: Some(0),
        output: String::from("listening\nno descriptor here\n"),
    });
    assert_eq!(
        launch.phase(),
        &Phase::Failed(Failure::HandshakeFailure(Handshake::MissingSessionData))
    );
    assert_eq!(action, LaunchAction::Abandon { release_bootstrap: true });
}

#[test]
fn agent_that_fails_carries_its_exit_code() {
    let (launch, _) = authenticated(Method::Distant, 15000);
    let (launch, action) = launch.step(LaunchEvent::AgentExited {
        success: false,
        code: Some(127),
        output: descriptor_line("10.0.0.1", 4000),
    });
    assert_eq!(
        launch.failure(),
        Some(&Failure::HandshakeFailure(Handshake::AgentFailed { code: Some(127) }))
    );
    assert_eq!(action, LaunchAction::Abandon { release_bootstrap: true });
}

#[test]
fn agent_that_fails_without_code_is_reported_so() {
    let (launch, _) = authenticated(Method::Distant, 15000);
    let (launch, _) = launch.handoff(false, None, None);
    assert_eq!(
        launch.failure(),
        Some(&Failure::HandshakeFailure(Handshake::AgentFailed { code: None }))
    );
}

#[test]
fn agent_that_cannot_be_spawned_is_a_connection_error() {
    let (launch, _) = authenticated(Method::Distant, 15000);
    let (launch, action) = launch.step(LaunchEvent::AgentSpawnFailed(String::from("no channel")));
    assert_eq!(launch.failure(), Some(&Failure::ConnectionError(String::from("no channel"))));
    assert_eq!(action, LaunchAction::Abandon { release_bootstrap: false });
}

#[test]
fn handoff_decides_on_the_scan_result() {
    let descriptor = SessionDescriptor { host: String::from("h"), port: 1, key: [7u8; 32] };
    let (launch, _) = authenticated(Method::Distant, 300);
    let (launch, action) = launch.handoff(true, Some(0), Some(descriptor.clone()));
    assert_eq!(launch.phase(), &Phase::Reconnecting);
    assert_eq!(action, LaunchAction::Reconnect { descriptor, timeout: 300 });

    let (launch, _) = authenticated(Method::Distant, 300);
    let (launch, action) = launch.handoff(true, Some(0), None);
    assert_eq!(
        launch.failure(),
        Some(&Failure::HandshakeFailure(Handshake::MissingSessionData))
    );
    assert_eq!(action, LaunchAction::Abandon { release_bootstrap: true });
}

#[test]
fn handoff_out_of_turn_fails_the_launch() {
    let (launch, action) = start(Method::Distant, 15000).handoff(true, Some(0), None);
    assert_eq!(launch.failure(), Some(&Failure::Internal(Fault::UnexpectedEvent)));
    assert_eq!(action, LaunchAction::Abandon { release_bootstrap: false });
}

#[test]
fn reconnect_failure_is_a_connection_error() {
    let (launch, action) =
        reconnecting(15000).step(LaunchEvent::ReconnectFailed(String::from("unreachable")));
    assert_eq!(launch.failure(), Some(&Failure::ConnectionError(String::from("unreachable"))));
    assert_eq!(action, LaunchAction::Abandon { release_bootstrap: false });
}

#[test]
fn reconnect_over_the_limit_times_out_with_the_launch_limit() {
    let (launch, _) = reconnecting(750).step(LaunchEvent::ReconnectTimedOut);
    assert_eq!(launch.failure(), Some(&Failure::Timeout { millis: 750 }));
}

#[test]
fn event_out_of_turn_fails_the_launch() {
    let (launch, action) = start(Method::Ssh, 15000).step(LaunchEvent::Authenticated);
    assert_eq!(launch.failure(), Some(&Failure::Internal(Fault::UnexpectedEvent)));
    assert_eq!(action, LaunchAction::Abandon { release_bootstrap: false });
    let (launch, _) = authenticated(Method::Distant, 15000);
    let (launch, _) = launch.step(LaunchEvent::Reconnected);
    assert_eq!(launch.failure(), Some(&Failure::Internal(Fault::UnexpectedEvent)));
}

#[test]
fn failed_launch_stays_failed() {
    let (launch, _) =
        start(Method::Ssh, 15000).step(LaunchEvent::ConnectFailed(String::from("down")));
    let (launch, action) = launch.step(LaunchEvent::Connected);
    assert_eq!(launch.failure(), Some(&Failure::ConnectionError(String::from("down"))));
    assert_eq!(action, LaunchAction::Abandon { release_bootstrap: false });
    let (launch, _) = launch.step(LaunchEvent::Authenticated);
    assert_eq!(launch.failure(), Some(&Failure::ConnectionError(String::from("down"))));
}

#[test]
fn ready_launch_stays_ready() {
    let (launch, _) = authenticated(Method::Ssh, 15000);
    let (launch, action) = launch.step(LaunchEvent::ConnectFailed(String::from("late")));
    assert_eq!(launch.phase(), &Phase::Ready);
    assert_eq!(action, LaunchAction::Register { method: Method::Ssh });
}

#[test]
fn ready_launch_registers_an_active_session() {
    let mut sessions: Registry<&str> = Registry::new();
    let mut ids = IdAllocator::with_seed(3);
    let (launch, _) = authenticated(Method::Ssh, 15000);
    let session = launch.register(&mut sessions, &mut ids, "channel").unwrap();
    assert!(session.is_active(&sessions));
    assert_eq!(session.channel(&sessions), Ok(&"channel"));
    assert_eq!(sessions.len(), 1);
    assert_eq!(session.id(), oorandom::Rand32::new(3).rand_u32() as usize);
}

#[test]
fn two_launches_yield_distinct_active_sessions() {
    let mut sessions: Registry<&str> = Registry::new();
    let mut ids = IdAllocator::with_seed(3);
    let (first, _) = authenticated(Method::Ssh, 15000);
    let first = first.register(&mut sessions, &mut ids, "one").unwrap();
    let second = reconnecting(15000).step(LaunchEvent::Reconnected).0;
    let second = second.register(&mut sessions, &mut ids, "two").unwrap();
    assert_ne!(first, second);
    assert!(first.is_active(&sessions) && second.is_active(&sessions));
    assert_eq!(first.channel(&sessions), Ok(&"one"));
    assert_eq!(second.channel(&sessions), Ok(&"two"));
}

#[test]
fn unfinished_launch_registers_nothing() {
    let mut sessions: Registry<&str> = Registry::new();
    let mut ids = IdAllocator::new();
    let registered = start(Method::Ssh, 15000).register(&mut sessions, &mut ids, "early");
    assert_eq!(registered, Err(Failure::Internal(Fault::LaunchIncomplete)));
    assert_eq!(sessions.len(), 0);
    assert!(!ids.is_seeded());
}

#[test]
fn bootstrap_session_is_released_once_the_agent_has_exited() {
    let (launch, spawn) = authenticated(Method::Distant, 15000);
    assert!(!spawn.releases_bootstrap());
    let (_, reconnect) = launch.handoff(
        true,
        Some(0),
        Some(SessionDescriptor { host: String::from("h"), port: 1, key: [0u8; 32] }),
    );
    assert!(reconnect.releases_bootstrap());

    let (launch, _) = authenticated(Method::Distant, 15000);
    let (_, abandon) = launch.handoff(false, Some(1), None);
    assert!(abandon.releases_bootstrap());

    let (_, register) = authenticated(Method::Ssh, 15000);
    assert!(!register.releases_bootstrap());
    assert!(!LaunchAction::Authenticate.releases_bootstrap());
    assert!(!LaunchAction::Abandon { release_bootstrap: false }.releases_bootstrap());
}
