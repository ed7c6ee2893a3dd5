use chat_relay::registry::Registry;
use chat_relay::session::Effect;
use chat_relay::session::Session;

#[test]
fn user_can_join_server() {
    let mut reg = Registry::new();
    let mut alice = Session::new();
    let effect = alice.on_line(&mut reg, "JOIN alice");
    // accepted silently: a delivery handle, no error line
    assert!(matches!(effect, Effect::Joined(_)));
    assert!(reg.contains("alice"));
}

#[test]
fn duplicate_username_is_rejected() {
    let mut reg = Registry::new();
    let mut first = Session::new();
    let h1 = match first.on_line(&mut reg, "JOIN bob") {
        Effect::Joined(h) => h,
        _ => panic!("first join must succeed"),
    };
    let mut second = Session::new();
    match second.on_line(&mut reg, "JOIN bob") {
        Effect::Reject(reply) => assert!(reply.contains("Username already taken")),
        _ => panic!("second join must be rejected"),
    }
    // the registry still maps bob to the first client's handle
    assert_eq!(reg.handle_of("bob"), Some(h1));
    assert_eq!(reg.len(), 1);
}

#[test]
fn message_is_broadcast_to_other_users() {
    let mut reg = Registry::new();
    let mut alice = Session::new();
    let mut bob = Session::new();
    let ha = match alice.on_line(&mut reg, "JOIN alicey join") {
        Effect::Joined(h) => h,
        _ => panic!("alice's join must succeed"),
    };
    let hb = match bob.on_line(&mut reg, "JOIN bobby join") {
        Effect::Joined(h) => h,
        _ => panic!("bob's join must succeed"),
    };
    match alice.on_line(&mut reg, "MSG Hello Bob!") {
        Effect::Deliver(d) => {
            assert_eq!(d.payload, "FROM alicey join Hello Bob!\n");
            // bob receives it; alice receives nothing
            assert_eq!(d.targets, vec![hb]);
            assert!(!d.targets.contains(&ha));
        }
        _ => panic!("a message from an active user must be broadcast"),
    }
}

#[test]
fn leave_removes_user_from_room() {
    let mut reg = Registry::new();
    let mut alice = Session::new();
    let mut bob = Session::new();
    let ha = match alice.on_line(&mut reg, "JOIN alice") {
        Effect::Joined(h) => h,
        _ => panic!("alice's join must succeed"),
    };
    assert!(matches!(bob.on_line(&mut reg, "JOIN bob"), Effect::Joined(_)));
    assert!(matches!(alice.on_line(&mut reg, "LEAVE"), Effect::Left));
    assert!(!reg.contains("alice"));
    // a later broadcast no longer reaches alice's handle
    match bob.on_line(&mut reg, "MSG Are you there?") {
        Effect::Deliver(d) => {
            assert!(!d.targets.contains(&ha));
            assert!(d.targets.is_empty());
            assert_eq!(d.payload, "FROM bob Are you there?\n");
        }
        _ => panic!("bob's message must be broadcast"),
    }
}

#[test]
fn malformed_join_closes_without_registering() {
    let mut reg = Registry::new();

    let mut s = Session::new();
    assert!(matches!(s.on_line(&mut reg, "HELLO"), Effect::Close));
    assert_eq!(reg.len(), 0);

    let mut s = Session::new();
    assert!(matches!(s.on_line(&mut reg, "JOIN"), Effect::Close));
    let mut s = Session::new();
    assert!(matches!(s.on_line(&mut reg, "JOIN "), Effect::Close));
    let mut s = Session::new();
    assert!(matches!(s.on_line(&mut reg, "join alice"), Effect::Close));
    assert_eq!(reg.len(), 0);
}

#[test]
fn unrecognized_line_keeps_session_active() {
    let mut reg = Registry::new();
    let mut alice = Session::new();
    let mut bob = Session::new();
    assert!(matches!(alice.on_line(&mut reg, "JOIN alice"), Effect::Joined(_)));
    let hb = match bob.on_line(&mut reg, "JOIN bob") {
        Effect::Joined(h) => h,
        _ => panic!("bob's join must succeed"),
    };
    // garbage is ignored, the session stays active
    assert!(matches!(alice.on_line(&mut reg, "FETCH the news"), Effect::Ignored));
    assert!(matches!(alice.on_line(&mut reg, ""), Effect::Ignored));
    assert!(reg.contains("alice"));
    match alice.on_line(&mut reg, "MSG still here") {
        Effect::Deliver(d) => assert_eq!(d.targets, vec![hb]),
        _ => panic!("the session must still broadcast"),
    }
}

#[test]
fn disconnect_cleans_up_like_leave() {
    let mut reg = Registry::new();
    let mut alice = Session::new();
    assert!(matches!(alice.on_line(&mut reg, "JOIN alice"), Effect::Joined(_)));
    assert!(matches!(alice.on_disconnect(&mut reg), Effect::Left));
    assert!(!reg.contains("alice"));
    // cleanup runs exactly once: later events change nothing
    assert!(matches!(alice.on_disconnect(&mut reg), Effect::Ignored));
    assert!(matches!(alice.on_line(&mut reg, "MSG late"), Effect::Ignored));
    assert_eq!(reg.len(), 0);
}

#[test]
fn disconnect_before_join_registers_nothing() {
    let mut reg = Registry::new();
    let mut s = Session::new();
    assert!(matches!(s.on_disconnect(&mut reg), Effect::Close));
    assert_eq!(reg.len(), 0);
}

#[test]
fn name_is_free_again_after_leave() {
    let mut reg = Registry::new();
    let mut first = Session::new();
    let h1 = match first.on_line(&mut reg, "JOIN carol") {
        Effect::Joined(h) => h,
        _ => panic!("first join must succeed"),
    };
    assert!(matches!(first.on_line(&mut reg, "LEAVE"), Effect::Left));
    let mut second = Session::new();
    let h2 = match second.on_line(&mut reg, "JOIN carol") {
        Effect::Joined(h) => h,
        _ => panic!("rejoining a freed name must succeed"),
    };
    // the old handle is never reused
    assert_ne!(h1, h2);
    assert_eq!(reg.handle_of("carol"), Some(h2));
}
