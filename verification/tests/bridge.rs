use stacksight::bridge::Bridge;
use stacksight::commands::Command;

fn s(x: &str) -> String {
    x.to_string()
}

fn names(b: &Bridge) -> Vec<String> {
    b.pending.iter().map(|c| format!("{:?}", c)).collect()
}

#[test]
fn commands_wait_for_the_link_and_lists_follow() {
    let mut b = Bridge::new();
    assert!(!b.connected);
    b.queue(Command::DockerStart { id: s("c1") });
    b.link_down(Some(s("refused")));
    assert_eq!(b.last_error, Some(s("refused")));
    b.connected_now();
    assert!(b.connected);
    assert_eq!(b.last_error, None);
    assert_eq!(b.pending.len(), 6);
    assert!(matches!(b.pending[0], Command::DockerStart { .. }));
    assert!(matches!(b.pending[1], Command::DockerList));
    assert!(matches!(b.pending[5], Command::VirtEnvList));
}

#[test]
fn a_failed_send_keeps_the_command_and_the_rest_in_order() {
    let mut b = Bridge::new();
    b.connected_now();
    let before = names(&b);
    let first = b.take_next().unwrap();
    assert!(matches!(first, Command::DockerList));
    b.flush_failed(first, s("broken pipe"));
    assert_eq!(names(&b), before);
    assert!(!b.connected);
    assert_eq!(b.last_error, Some(s("broken pipe")));
    b.send_failed(Command::DockerPruneImages, s("gone"));
    assert!(matches!(b.pending[5], Command::DockerPruneImages));
    b.event_failed(s("bad event"));
    assert_eq!(b.last_error, Some(s("bad event")));
    let mut empty = Bridge::new();
    assert!(empty.take_next().is_none());
}
