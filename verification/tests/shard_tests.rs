use botcore::ShardEntry;
use botcore::ShardRegistry;
use botcore::Stage;
use botcore::latency_reply;
use botcore::status_line;
use botcore::status_lines;

fn entry(id: u64, stage: Stage, latency_millis: Option<u64>) -> ShardEntry {
    ShardEntry {
        id,
        stage,
        latency_millis,
    }
}

#[test]
fn registry_insert_and_get() {
    let mut reg = ShardRegistry::new();
    assert_eq!(reg.len(), 0);
    assert!(reg.insert(entry(0, Stage::Connected, Some(40))));
    assert!(reg.insert(entry(1, Stage::Resuming, None)));
    assert_eq!(reg.len(), 2);
    assert_eq!(reg.get(0), Some(entry(0, Stage::Connected, Some(40))));
    assert_eq!(reg.get(1), Some(entry(1, Stage::Resuming, None)));
    assert_eq!(reg.get(2), None);
}

#[test]
fn registry_rejects_duplicate_id() {
    let mut reg = ShardRegistry::new();
    assert!(reg.insert(entry(5, Stage::Connecting, None)));
    assert!(!reg.insert(entry(5, Stage::Connected, Some(1))));
    assert_eq!(reg.len(), 1);
    assert_eq!(reg.get(5), Some(entry(5, Stage::Connecting, None)));
}

#[test]
fn latency_without_manager() {
    assert_eq!(
        latency_reply(None, 0),
        "There was a problem getting the shard manager"
    );
}

#[test]
fn latency_shard_missing() {
    let mut reg = ShardRegistry::new();
    reg.insert(entry(1, Stage::Connected, Some(40)));
    assert_eq!(latency_reply(Some(&reg), 0), "No shard found");
}

#[test]
fn latency_shard_missing_in_empty_registry() {
    let reg = ShardRegistry::new();
    assert_eq!(latency_reply(Some(&reg), 7), "No shard found");
}

#[test]
fn latency_unmeasured_falls_back_to_zero() {
    let mut reg = ShardRegistry::new();
    reg.insert(entry(2, Stage::Handshake, None));
    assert_eq!(latency_reply(Some(&reg), 2), "The shard latency is 0ms");
}

#[test]
fn latency_measured() {
    let mut reg = ShardRegistry::new();
    reg.insert(entry(3, Stage::Connected, Some(123)));
    assert_eq!(latency_reply(Some(&reg), 3), "The shard latency is 123ms");
}

#[test]
fn stage_names() {
    assert_eq!(Stage::Connected.name(), "Connected");
    assert_eq!(Stage::Connecting.name(), "Connecting");
    assert_eq!(Stage::Disconnected.name(), "Disconnected");
    assert_eq!(Stage::Handshake.name(), "Handshake");
    assert_eq!(Stage::Identifying.name(), "Identifying");
    assert_eq!(Stage::Resuming.name(), "Resuming");
}

#[test]
fn status_line_measured() {
    let e = entry(0, Stage::Connected, Some(40));
    assert_eq!(status_line(&e), "Shard 0 is Connected, latency 40ms");
}

#[test]
fn status_line_unmeasured() {
    let e = entry(9, Stage::Identifying, None);
    assert_eq!(status_line(&e), "Shard 9 is Identifying, latency unknown");
}

#[test]
fn poller_one_line_per_entry() {
    let mut reg = ShardRegistry::new();
    reg.insert(entry(0, Stage::Connected, Some(40)));
    reg.insert(entry(1, Stage::Resuming, None));
    reg.insert(entry(2, Stage::Disconnected, Some(0)));
    let lines = status_lines(&reg);
    assert_eq!(lines.len(), 3);
    assert_eq!(lines[0], "Shard 0 is Connected, latency 40ms");
    assert_eq!(lines[1], "Shard 1 is Resuming, latency unknown");
    assert_eq!(lines[2], "Shard 2 is Disconnected, latency 0ms");
}

#[test]
fn poller_empty_registry() {
    let reg = ShardRegistry::new();
    assert_eq!(status_lines(&reg).len(), 0);
}
