use distant_nvim::{
    DirEntry, Dispatcher, Failure, FileType, IdAllocator, Listing, Operation, Registry, Request,
    Session, DEFAULT_TIMEOUT_MS,
};

fn entry(path: &str, depth: usize) -> DirEntry {
    DirEntry { path: String::from(path), file_type: FileType::File, depth }
}

#[test]
fn default_timeout_is_fifteen_seconds() {
    assert_eq!(DEFAULT_TIMEOUT_MS, 15000);
}

#[test]
fn request_without_timeout_gets_the_default() {
    let request = Request::new(Operation::Exists { path: String::from("/tmp") }, None);
    assert_eq!(request.timeout, 15000);
    assert_eq!(request.operation, Operation::Exists { path: String::from("/tmp") });
}

#[test]
fn request_keeps_a_named_timeout() {
    let request = Request::new(Operation::ReadFile { path: String::from("a") }, Some(20));
    assert_eq!(request.timeout, 20);
    let request = Request::new(Operation::ReadFile { path: String::from("a") }, Some(0));
    assert_eq!(request.timeout, 0);
}

#[test]
fn dispatcher_tags_calls_with_its_tenant() {
    let dispatcher = Dispatcher::with_tenant(String::from("editor"));
    assert_eq!(dispatcher.tenant(), "editor");
}

#[test]
#[allow(deprecated)]
fn default_dispatcher_is_named_after_this_machine() {
    assert_eq!(Dispatcher::new().tenant(), whoami::hostname());
}

#[test]
fn default_dispatcher_tenant_holds_no_ascii_capital() {
    let dispatcher = Dispatcher::new();
    assert!(!dispatcher.tenant().chars().any(|c| c.is_ascii_uppercase()));
}

#[test]
fn default_dispatcher_tags_its_calls_with_the_machine_name() {
    let mut sessions: Registry<u8> = Registry::new();
    let session = Session::new(sessions.claim(1, 1));
    let dispatcher = Dispatcher::new();
    let request = Request::new(Operation::Exists { path: String::from("x") }, None);
    let call = dispatcher.dispatch(&sessions, session, request).ok().unwrap();
    assert_eq!(call.tenant, dispatcher.tenant());
    assert!(!call.tenant.chars().any(|c| c.is_ascii_uppercase()));
}

#[test]
fn dispatch_resolves_the_session_and_carries_the_request() {
    let mut sessions: Registry<&str> = Registry::new();
    let mut ids = IdAllocator::with_seed(1);
    let session = Session::new(sessions.insert(&mut ids, "channel").unwrap());
    let dispatcher = Dispatcher::with_tenant(String::from("editor"));
    let operation = Operation::WriteFileText { path: String::from("f"), data: String::from("hello") };
    let call = dispatcher
        .dispatch(&sessions, session, Request::new(operation.clone(), Some(250)))
        .ok()
        .unwrap();
    assert_eq!(call.channel, &"channel");
    assert_eq!(call.tenant, "editor");
    assert_eq!(call.operation, operation);
    assert_eq!(call.timeout, 250);
}

#[test]
fn dispatch_against_unknown_session_is_not_connected() {
    let sessions: Registry<&str> = Registry::new();
    let dispatcher = Dispatcher::with_tenant(String::from("editor"));
    let request = Request::new(Operation::Exists { path: String::from("x") }, None);
    let failure = dispatcher.dispatch(&sessions, Session::new(31), request).err();
    assert_eq!(failure, Some(Failure::NotConnected { id: 31 }));
}

#[test]
fn dispatch_against_removed_session_is_not_connected() {
    let mut sessions: Registry<&str> = Registry::new();
    let mut ids = IdAllocator::with_seed(1);
    let session = Session::new(sessions.insert(&mut ids, "channel").unwrap());
    session.disconnect(&mut sessions).unwrap();
    let dispatcher = Dispatcher::with_tenant(String::from("editor"));
    let request = Request::new(Operation::Exists { path: String::from("x") }, None);
    let failure = dispatcher.dispatch(&sessions, session, request).err();
    assert_eq!(failure, Some(Failure::NotConnected { id: session.id() }));
}

#[test]
fn dispatches_against_distinct_sessions_see_their_own_channel() {
    let mut sessions: Registry<usize> = Registry::new();
    let mut ids = IdAllocator::with_seed(77);
    let handles: Vec<Session> =
        (0..16).map(|n| Session::new(sessions.insert(&mut ids, n).unwrap())).collect();
    let dispatcher = Dispatcher::with_tenant(String::from("editor"));
    for (n, session) in handles.iter().enumerate() {
        let request = Request::new(Operation::ReadFile { path: format!("{}", n) }, None);
        let call = dispatcher.dispatch(&sessions, *session, request).ok().unwrap();
        assert_eq!(*call.channel, n);
        assert_eq!(call.operation, Operation::ReadFile { path: format!("{}", n) });
    }
}

#[test]
fn listing_keeps_readable_entries_beside_failures() {
    let listing = Listing::collect(vec![
        Ok(entry("a", 0)),
        Err(String::from("permission denied: b")),
        Ok(entry("c", 1)),
        Ok(entry("d", 1)),
        Err(String::from("not found: e")),
    ]);
    assert_eq!(listing.entries, vec![entry("a", 0), entry("c", 1), entry("d", 1)]);
    assert_eq!(
        listing.errors,
        vec![String::from("permission denied: b"), String::from("not found: e")]
    );
}

#[test]
fn listing_counts_do_not_depend_on_order() {
    let forward = Listing::collect(vec![Ok(entry("a", 0)), Ok(entry("b", 0)), Err(String::from("x"))]);
    let backward = Listing::collect(vec![Err(String::from("x")), Ok(entry("b", 0)), Ok(entry("a", 0))]);
    assert_eq!(forward.entries.len(), 2);
    assert_eq!(backward.entries.len(), 2);
    assert_eq!(forward.errors.len(), 1);
    assert_eq!(backward.errors.len(), 1);
}

#[test]
fn listing_of_nothing_is_empty() {
    let listing = Listing::collect(Vec::new());
    assert!(listing.entries.is_empty());
    assert!(listing.errors.is_empty());
}

#[test]
fn listing_of_failures_only_has_no_entries() {
    let listing = Listing::collect(vec![Err(String::from("a")), Err(String::from("b"))]);
    assert!(listing.entries.is_empty());
    assert_eq!(listing.errors, vec![String::from("a"), String::from("b")]);
}
