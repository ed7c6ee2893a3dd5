use chat_relay::registry::Registry;
use chat_relay::session::Effect;
use chat_relay::session::Session;

#[test]
fn load_test_100_clients() {
    let mut reg = Registry::new();
    let mut sessions: Vec<Session> = Vec::new();
    let mut handles: Vec<u64> = Vec::new();
    for i in 0..100 {
        let mut s = Session::new();
        let name = format!("user{}", i);
        match s.on_line(&mut reg, &format!("JOIN {}", name)) {
            Effect::Joined(h) => handles.push(h),
            _ => panic!("join of {} failed", name),
        }
        sessions.push(s);
    }
    // all 100 distinct usernames are registered
    assert_eq!(reg.len(), 100);
    let snapshot = reg.snapshot();
    assert_eq!(snapshot.len(), 100);
    for i in 0..100 {
        let name = format!("user{}", i);
        assert!(snapshot.iter().any(|(n, h)| n == &name && *h == handles[i]));
    }
    // a message from one client reaches the 99 others and never the sender
    match sessions[0].on_line(&mut reg, "MSG Hello from load test") {
        Effect::Deliver(d) => {
            assert_eq!(d.targets.len(), 99);
            assert!(!d.targets.contains(&handles[0]));
            for h in handles.iter().skip(1) {
                assert!(d.targets.contains(h));
            }
        }
        _ => panic!("broadcast from an active user failed"),
    }
}
