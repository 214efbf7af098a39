use distant_nvim::{get_session_channel, Failure, IdAllocator, Registry, Session};

#[test]
fn session_keeps_its_id() {
    assert_eq!(Session::new(12).id(), 12);
    assert_eq!(Session::new(12), Session::new(12));
    assert_ne!(Session::new(12), Session::new(13));
}

#[test]
fn session_never_registered_is_not_connected() {
    let sessions: Registry<u8> = Registry::new();
    let session = Session::new(5);
    assert!(!session.is_active(&sessions));
    assert_eq!(session.channel(&sessions), Err(Failure::NotConnected { id: 5 }));
    assert_eq!(get_session_channel(&sessions, 5), Err(Failure::NotConnected { id: 5 }));
}

#[test]
fn registered_session_resolves_to_its_object() {
    let mut sessions: Registry<u8> = Registry::new();
    let id = sessions.claim(5, 50);
    assert_eq!(get_session_channel(&sessions, id), Ok(&50));
    assert!(Session::new(id).is_active(&sessions));
}

#[test]
fn disconnected_session_is_inactive() {
    let mut sessions: Registry<&str> = Registry::new();
    let mut ids = IdAllocator::with_seed(8);
    let session = Session::new(sessions.insert(&mut ids, "live").unwrap());
    assert!(session.is_active(&sessions));
    assert_eq!(session.disconnect(&mut sessions), Ok("live"));
    assert!(!session.is_active(&sessions));
    assert_eq!(session.channel(&sessions), Err(Failure::NotConnected { id: session.id() }));
    assert_eq!(
        session.disconnect(&mut sessions),
        Err(Failure::NotConnected { id: session.id() })
    );
}

#[test]
fn sessions_resolve_independently() {
    let mut sessions: Registry<usize> = Registry::new();
    let mut ids = IdAllocator::with_seed(21);
    let handles: Vec<Session> =
        (0..32).map(|n| Session::new(sessions.insert(&mut ids, n).unwrap())).collect();
    for (n, session) in handles.iter().enumerate() {
        assert_eq!(session.channel(&sessions), Ok(&n));
    }
    for (i, a) in handles.iter().enumerate() {
        for b in handles.iter().skip(i + 1) {
            assert_ne!(a, b);
        }
    }
    handles[3].disconnect(&mut sessions).unwrap();
    for (n, session) in handles.iter().enumerate() {
        assert_eq!(session.is_active(&sessions), n != 3);
    }
}
